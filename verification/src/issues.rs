//! The one issue record this core reports to the diagnostics layer.
//!
//! An issue carries a stable name, an instance key, an optional related
//! collection, a human-readable description, and a suggested solution. The
//! registry and dashboard that collect issues live outside this library;
//! only the record itself is defined here.

use vstd::prelude::*;
use vstd::string::StringExecFns;

verus! {

/// A suggested way out of an issue.
#[derive(Debug, Clone, PartialEq, Eq)]
pub enum Solution {
    /// Advice to restructure the deployment; the payload is the advice text.
    Refactor(String),
}

/// Raised when an instance holds so many collections that per-collection
/// overhead dominates; one issue stands for the whole process.
pub struct TooManyCollections;

impl TooManyCollections {
    /// The instance key: empty, as only one such issue exists per process.
    pub fn instance_id(&self) -> (r: &str)
        ensures
            r@ == ""@,
    {
        ""
    }

    /// The stable issue name shown by the diagnostics layer.
    pub fn name() -> (r: &'static str)
        ensures
            r@ == "TOO_MANY_COLLECTIONS"@,
    {
        "TOO_MANY_COLLECTIONS"
    }

    /// This issue concerns the whole instance, not one collection.
    pub fn related_collection(&self) -> (r: Option<String>)
        ensures
            r is None,
    {
        None
    }

    /// The human-readable explanation of the issue.
    pub fn description(&self) -> (r: String)
        ensures
            r@
                == "It looks like you have too many collections.\nIf your architecture creates collections programmatically, it's probably better to restructure your solution into a fixed number of them. \nLearn more here: https://qdrant.tech/documentation/guides/multiple-partitions/"@,
    {
        String::from_str(
            "It looks like you have too many collections.\nIf your architecture creates collections programmatically, it's probably better to restructure your solution into a fixed number of them. \nLearn more here: https://qdrant.tech/documentation/guides/multiple-partitions/",
        )
    }

    /// The suggested remedy: restructure into a fixed number of collections.
    pub fn solution(&self) -> (r: Solution)
        ensures
            r matches Solution::Refactor(s) && s@
                == "Restructure your solution into a fixed number of collections"@,
    {
        Solution::Refactor(
            String::from_str("Restructure your solution into a fixed number of collections"),
        )
    }
}

} // verus!
