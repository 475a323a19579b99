use vector_scoring::snapshot::{
    entry_kind_allowed, entry_kind_from_byte, validate_entry_types, SnapshotEntryKind,
    SnapshotValidationError,
};

#[test]
fn classifies_the_accepted_bytes() {
    assert_eq!(entry_kind_from_byte(0x00), SnapshotEntryKind::Regular);
    assert_eq!(entry_kind_from_byte(b'0'), SnapshotEntryKind::Regular);
    assert_eq!(entry_kind_from_byte(b'5'), SnapshotEntryKind::Directory);
    assert_eq!(entry_kind_from_byte(b'S'), SnapshotEntryKind::Sparse);
    assert_eq!(entry_kind_from_byte(b'1'), SnapshotEntryKind::Other);
    assert_eq!(entry_kind_from_byte(b'2'), SnapshotEntryKind::Other);
}

// The model of the header byte must agree with the tar crate's own
// classification for every byte: an entry is allowed exactly when tar reads
// it as a regular file, a directory, or a GNU sparse file.
#[test]
fn byte_model_matches_tar() {
    for b in 0u8..=255 {
        let expected = matches!(
            tar::EntryType::new(b),
            tar::EntryType::Regular | tar::EntryType::Directory | tar::EntryType::GNUSparse
        );
        assert_eq!(
            entry_kind_allowed(&entry_kind_from_byte(b)),
            expected,
            "byte {:#x}",
            b
        );
    }
}

#[test]
fn accepts_an_archive_of_plain_entries() {
    let bytes: Vec<u8> = vec![b'5', b'0', 0x00, b'S', b'0'];
    assert_eq!(validate_entry_types(&bytes), Ok(()));
}

#[test]
fn accepts_an_empty_archive() {
    let bytes: Vec<u8> = vec![];
    assert_eq!(validate_entry_types(&bytes), Ok(()));
}

#[test]
fn rejects_the_first_disallowed_entry() {
    let bytes: Vec<u8> = vec![b'0', b'5', b'1', b'2'];
    assert_eq!(
        validate_entry_types(&bytes),
        Err(SnapshotValidationError::DisallowedEntry {
            index: 2,
            byte: b'1',
        })
    );
}
