//! Module containing everything related to an instance.
use vstd::prelude::*;

verus! {

/// Object containing url for streaming api.
#[derive(Debug, Clone)]
pub struct StreamingApi {
    /// Url for streaming API, typically a `wss://` url.
    pub streaming_api: String,
}

/// Statistics about the Mastodon instance.
#[derive(Debug, Clone)]
pub struct Stats {
    /// The number of users of the instance.
    pub user_count: u64,
    /// The number of statuses on the instance.
    pub status_count: u64,
    /// The number of instances that the instance knows of.
    pub domain_count: u64,
}

} // verus!
