//! module containing information about a finished report of a user.
use vstd::prelude::*;

verus! {

/// A struct containing info about a report.
#[derive(Debug, Clone)]
pub struct Report {
    /// The ID of the report.
    pub id: String,
    /// The action taken in response to the report.
    pub action_taken: String,
}

} // verus!
