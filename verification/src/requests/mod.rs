//! Requests that take options.

/// The options of a request for the statuses of an account.
pub mod statuses;
