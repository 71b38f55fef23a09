//! Data structures that the API hands out.
use vstd::prelude::*;

/// Data structures for updating an account.
pub mod account;
/// Data structures for media attachments.
pub mod attachment;
/// Data structures for cards of statuses.
pub mod card;
/// Data structures for an instance.
pub mod instance;
/// The items of all the pages of a collection, as one stream.
pub mod itemsiter;
/// Data structures for mentions.
pub mod mention;
/// Data structures for notifications.
pub mod notification;
/// The stream of items, under its earlier name.
pub mod pageiter;
/// Data structures for relationships with other accounts.
pub mod relationship;
/// Data structures for reports.
pub mod report;
/// Data structures for statuses.
pub mod status;

verus! {

/// An empty JSON object.
#[derive(Debug, Clone, Copy, PartialEq, Eq, Structural)]
pub struct Empty {}

} // verus!
