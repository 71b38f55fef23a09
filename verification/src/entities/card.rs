//! Module representing cards of statuses.
use vstd::prelude::*;

verus! {

/// A card of a status.
#[derive(Debug, Clone)]
pub struct Card {
    /// The url associated with the card.
    pub url: String,
    /// The title of the card.
    pub title: String,
    /// The card description.
    pub description: String,
    /// The image associated with the card, if any.
    pub image: Option<String>,
    /// OEmbed data
    pub author_name: Option<String>,
    /// OEmbed data
    pub author_url: Option<String>,
    /// OEmbed data
    pub provider_name: Option<String>,
    /// OEmbed data
    pub provider_url: Option<String>,
    /// OEmbed data
    pub html: Option<String>,
    /// OEmbed data
    pub width: Option<String>,
    /// OEmbed data
    pub height: Option<String>,
}

} // verus!
