//! Module containing everything related to media attachements.
use vstd::prelude::*;

verus! {

/// The type of media attachment.
#[derive(Debug, Clone, Copy, PartialEq, Eq, Structural)]
pub enum MediaType {
    /// An image.
    Image,
    /// A video file.
    Video,
    /// A gifv format file.
    Gifv,
    /// Unknown format.
    Unknown,
}

} // verus!
