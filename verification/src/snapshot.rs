//! Validation of segment snapshot archives.
//!
//! A snapshot is unpacked from a tar archive, and only plain entries may
//! appear in it: regular files, directories, and sparse-file extension
//! entries. Anything else (links, device nodes, fifos) is malformed and the
//! whole archive is rejected before any entry is unpacked. The archive
//! reading itself is I/O and lives with the caller; this module holds the
//! decision, over the entry-type bytes of the archive's headers.

use vstd::prelude::*;

verus! {

/// The classes of archive entry the validation distinguishes.
#[derive(Clone, Copy, Debug, PartialEq, Eq, Structural)]
pub enum SnapshotEntryKind {
    /// A regular file.
    Regular,
    /// A directory.
    Directory,
    /// A sparse regular file extension entry.
    Sparse,
    /// Any other entry class: never allowed in a snapshot.
    Other,
}

/// The tar header encoding of the accepted entry classes: NUL and `0` mark
/// a regular file, `5` a directory, and `S` a sparse file.
pub open spec fn spec_entry_kind(byte: u8) -> SnapshotEntryKind {
    if byte == 0x00 || byte == 0x30 {
        SnapshotEntryKind::Regular
    } else if byte == 0x35 {
        SnapshotEntryKind::Directory
    } else if byte == 0x53 {
        SnapshotEntryKind::Sparse
    } else {
        SnapshotEntryKind::Other
    }
}

/// Whether a snapshot archive may contain an entry of this kind.
pub open spec fn spec_entry_allowed(kind: SnapshotEntryKind) -> bool {
    kind != SnapshotEntryKind::Other
}

/// Classifies one tar header entry-type byte.
pub fn entry_kind_from_byte(byte: u8) -> (r: SnapshotEntryKind)
    ensures
        r == spec_entry_kind(byte),
{
    if byte == 0x00 || byte == 0x30 {
        SnapshotEntryKind::Regular
    } else if byte == 0x35 {
        SnapshotEntryKind::Directory
    } else if byte == 0x53 {
        SnapshotEntryKind::Sparse
    } else {
        SnapshotEntryKind::Other
    }
}

/// Whether a snapshot archive may contain an entry of this kind.
pub fn entry_kind_allowed(kind: &SnapshotEntryKind) -> (r: bool)
    ensures
        r == spec_entry_allowed(*kind),
{
    match kind {
        SnapshotEntryKind::Other => false,
        _ => true,
    }
}

/// Why a snapshot archive was rejected.
#[derive(Clone, Copy, Debug, PartialEq, Eq, Structural)]
pub enum SnapshotValidationError {
    /// The entry at `index` has a class that snapshots may not contain;
    /// `byte` is its raw header entry-type byte.
    DisallowedEntry { index: usize, byte: u8 },
}

/// Validates the entry-type bytes of a whole archive, in order. Succeeds
/// exactly when every entry is allowed; otherwise reports the first
/// offending entry and touches nothing else.
pub fn validate_entry_types(bytes: &Vec<u8>) -> (r: Result<(), SnapshotValidationError>)
    ensures
        match r {
            Ok(_) => forall|i: int|
                0 <= i < bytes@.len() ==> spec_entry_allowed(spec_entry_kind(#[trigger] bytes@[i])),
            Err(e) => e matches SnapshotValidationError::DisallowedEntry { index, byte } && {
                &&& index < bytes@.len()
                &&& byte == bytes@[index as int]
                &&& !spec_entry_allowed(spec_entry_kind(byte))
                &&& forall|j: int|
                    0 <= j < index ==> spec_entry_allowed(spec_entry_kind(#[trigger] bytes@[j]))
            },
        },
{
    let n = bytes.len();
    let mut i: usize = 0;
    while i < n
        invariant
            n == bytes@.len(),
            i <= n,
            forall|j: int| 0 <= j < i ==> spec_entry_allowed(spec_entry_kind(#[trigger] bytes@[j])),
        decreases n - i,
    {
        let kind = entry_kind_from_byte(bytes[i]);
        if !entry_kind_allowed(&kind) {
            return Err(SnapshotValidationError::DisallowedEntry { index: i, byte: bytes[i] });
        }
        i = i + 1;
    }
    Ok(())
}

} // verus!
