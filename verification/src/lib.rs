//! A typed client library for the Mastodon REST API.
//!
//! The heart of the crate is the traversal of paginated collections: the
//! service answers with bounded pages whose neighbours are named by the
//! `Link` header of the response. [`cursor::get_links`] reads those cursors,
//! [`page::Page`] holds one batch together with them, and
//! [`entities::itemsiter::ItemsIter`] flattens the pages into one stream.
//!
//! Nothing in this crate performs I/O. Wherever a request has to be sent, the
//! library says which one, and is handed the outcome as a plain value.

/// Registering your App
pub mod apps;
/// Constructing a status
pub mod status_builder;
/// Registering your app.
pub mod registration;
/// Errors of the library.
pub mod errors;
/// Characters and strings.
pub mod text;
/// The grammar of the `Link` header.
pub mod link;
/// Headers of the usual form, and what the grammar makes of them.
pub mod link_form;
/// The cursors that the `Link` headers of a response give.
pub mod cursor;
/// Handling multiple pages of entities.
pub mod page;
/// Entities returned from the API
pub mod entities;
/// Requests that take options.
pub mod requests;
/// The client, and where its requests go.
pub mod client;

pub use client::{Data, Mastodon};
pub use errors::{ApiError, Error};
pub use registration::Registration;
pub use requests::statuses::StatusesRequest;
pub use status_builder::StatusBuilder;
