use vector_scoring::issues::{Solution, TooManyCollections};

#[test]
fn issue_identity() {
    let issue = TooManyCollections;
    assert_eq!(TooManyCollections::name(), "TOO_MANY_COLLECTIONS");
    assert_eq!(issue.instance_id(), "");
    assert_eq!(issue.related_collection(), None);
}

#[test]
fn issue_description_and_solution() {
    let issue = TooManyCollections;
    assert_eq!(
        issue.description(),
        "It looks like you have too many collections.\nIf your architecture creates collections programmatically, it's probably better to restructure your solution into a fixed number of them. \nLearn more here: https://qdrant.tech/documentation/guides/multiple-partitions/"
    );
    let Solution::Refactor(advice) = issue.solution();
    assert_eq!(advice, "Restructure your solution into a fixed number of collections");
}
