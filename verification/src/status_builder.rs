use vstd::prelude::*;

verus! {

/// A builder pattern struct for constructing a status.
#[derive(Debug, Clone)]
pub struct StatusBuilder {
    /// The text of the status.
    pub status: String,
    /// Ids of accounts being replied to.
    pub in_reply_to_id: Option<u64>,
    /// Ids of media attachments being attached to the status.
    pub media_ids: Option<Vec<u64>>,
    /// Whether current status is sensitive.
    pub sensitive: Option<bool>,
    /// Text to precede the normal status text.
    pub spoiler_text: Option<String>,
    /// Visibility of the status, defaults to `Public`.
    pub visibility: Option<Visibility>,
}

/// The visibility of a status.
#[derive(Clone, Copy, Debug, PartialEq, Eq, Structural)]
pub enum Visibility {
    /// A Direct message to a user
    Direct,
    /// Only available to followers
    Private,
    /// Not shown in public timelines
    Unlisted,
    /// Posted to public timelines
    Public,
}

impl StatusBuilder {
    /// Whether nothing but the text of the status is set.
    pub open spec fn is_plain(self) -> bool {
        &&& self.in_reply_to_id is None
        &&& self.media_ids is None
        &&& self.sensitive is None
        &&& self.spoiler_text is None
        &&& self.visibility is None
    }

    /// Create a new status with text.
    ///
    /// ```
    /// use mammut::StatusBuilder;
    /// let status = StatusBuilder::new("Hello World!".into());
    /// ```
    pub fn new(status: String) -> (builder: StatusBuilder)
        ensures
            builder.status == status,
            builder.is_plain(),
    {
        StatusBuilder {
            status,
            in_reply_to_id: None,
            media_ids: None,
            sensitive: None,
            spoiler_text: None,
            visibility: None,
        }
    }
}

impl Default for StatusBuilder {
    fn default() -> (builder: StatusBuilder)
        ensures
            builder.status@ == Seq::<char>::empty(),
            builder.is_plain(),
    {
        StatusBuilder::new(String::new())
    }
}

impl Default for Visibility {
    fn default() -> (visibility: Visibility)
        ensures
            visibility == Visibility::Public,
    {
        Visibility::Public
    }
}

} // verus!
