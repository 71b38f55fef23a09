use vstd::prelude::*;
use crate::text::{decimal, decimal_string, join, joined, texts};

verus! {

/// The options of a request for the statuses of an account.
///
/// # Example
///
/// ```
/// use mammut::StatusesRequest;
/// let request = StatusesRequest::new().only_media().pinned().since_id("foo");
/// assert_eq!(&request.to_querystring()[..], "?only_media=1&pinned=1&since_id=foo");
/// ```
#[derive(Clone, Debug)]
pub struct StatusesRequest {
    only_media: bool,
    exclude_replies: bool,
    pinned: bool,
    max_id: Option<String>,
    since_id: Option<String>,
    limit: Option<usize>,
}

/// What a [`StatusesRequest`] stands for: the options that were set.
pub struct Options {
    pub only_media: bool,
    pub exclude_replies: bool,
    pub pinned: bool,
    pub max_id: Option<Seq<char>>,
    pub since_id: Option<Seq<char>>,
    pub limit: Option<usize>,
}

/// The part of a query string that a flag gives: `text` if it is set.
pub open spec fn flag(set: bool, text: Seq<char>) -> Seq<Seq<char>> {
    if set {
        seq![text]
    } else {
        Seq::empty()
    }
}

/// The part of a query string that an option gives: `name` and the value, if
/// it has one.
pub open spec fn valued(name: Seq<char>, value: Option<Seq<char>>) -> Seq<Seq<char>> {
    match value {
        Some(value) => seq![name + value],
        None => Seq::empty(),
    }
}

impl Options {
    /// No option is set.
    pub open spec fn none() -> Options {
        Options {
            only_media: false,
            exclude_replies: false,
            pinned: false,
            max_id: None,
            since_id: None,
            limit: None,
        }
    }

    /// The limit as a decimal numeral.
    pub open spec fn limit_text(self) -> Option<Seq<char>> {
        match self.limit {
            Some(limit) => Some(decimal(limit as nat)),
            None => None,
        }
    }

    /// The parts of the query string, one for each option that is set, in
    /// the order in which the options are declared.
    pub open spec fn parts(self) -> Seq<Seq<char>> {
        flag(self.only_media, "only_media=1"@) + flag(self.exclude_replies, "exclude_replies=1"@)
            + flag(self.pinned, "pinned=1"@) + valued("max_id="@, self.max_id) + valued(
            "since_id="@,
            self.since_id,
        ) + valued("limit="@, self.limit_text())
    }

    /// The query string: empty where no option is set; else a question mark
    /// and the parts, with `&` between each two of them.
    pub open spec fn querystring(self) -> Seq<char> {
        if self.parts().len() == 0 {
            Seq::empty()
        } else {
            "?"@ + joined(self.parts(), "&"@)
        }
    }
}

impl View for StatusesRequest {
    type V = Options;

    closed spec fn view(&self) -> Options {
        Options {
            only_media: self.only_media,
            exclude_replies: self.exclude_replies,
            pinned: self.pinned,
            max_id: match self.max_id {
                Some(id) => Some(id@),
                None => None,
            },
            since_id: match self.since_id {
                Some(id) => Some(id@),
                None => None,
            },
            limit: self.limit,
        }
    }
}

impl Default for StatusesRequest {
    fn default() -> (request: StatusesRequest)
        ensures
            request@ == Options::none(),
    {
        StatusesRequest {
            only_media: false,
            exclude_replies: false,
            pinned: false,
            max_id: None,
            since_id: None,
            limit: None,
        }
    }
}

impl StatusesRequest {
    /// A request with no option set.
    pub fn new() -> (request: StatusesRequest)
        ensures
            request@ == Options::none(),
    {
        StatusesRequest {
            only_media: false,
            exclude_replies: false,
            pinned: false,
            max_id: None,
            since_id: None,
            limit: None,
        }
    }

    /// Asks for the statuses with media only.
    pub fn only_media(self) -> (request: StatusesRequest)
        ensures
            request@ == (Options { only_media: true, ..self@ }),
    {
        let mut request = self;
        request.only_media = true;
        request
    }

    /// Leaves the replies out.
    pub fn exclude_replies(self) -> (request: StatusesRequest)
        ensures
            request@ == (Options { exclude_replies: true, ..self@ }),
    {
        let mut request = self;
        request.exclude_replies = true;
        request
    }

    /// Asks for the pinned statuses only.
    pub fn pinned(self) -> (request: StatusesRequest)
        ensures
            request@ == (Options { pinned: true, ..self@ }),
    {
        let mut request = self;
        request.pinned = true;
        request
    }

    /// Asks for the statuses up to the one with the id `max_id`.
    pub fn max_id(self, max_id: &str) -> (request: StatusesRequest)
        ensures
            request@ == (Options { max_id: Some(max_id@), ..self@ }),
    {
        let mut request = self;
        request.max_id = Some(max_id.to_owned());
        request
    }

    /// Asks for the statuses after the one with the id `since_id`.
    pub fn since_id(self, since_id: &str) -> (request: StatusesRequest)
        ensures
            request@ == (Options { since_id: Some(since_id@), ..self@ }),
    {
        let mut request = self;
        request.since_id = Some(since_id.to_owned());
        request
    }

    /// Asks for `limit` statuses at most.
    pub fn limit(self, limit: usize) -> (request: StatusesRequest)
        ensures
            request@ == (Options { limit: Some(limit), ..self@ }),
    {
        let mut request = self;
        request.limit = Some(limit);
        request
    }

    /// The query string of the request: empty where no option is set, else
    /// `?` and the options that are set, with `&` between them.
    pub fn to_querystring(&self) -> (query: String)
        ensures
            query@ == self@.querystring(),
    {
        let mut opts: Vec<String> = Vec::new();
        let ghost o = self@;
        assert(texts(opts@) =~= Seq::<Seq<char>>::empty());

        if self.only_media {
            opts.push("only_media=1".to_owned());
        }
        assert(texts(opts@) =~= flag(o.only_media, "only_media=1"@));

        if self.exclude_replies {
            opts.push("exclude_replies=1".to_owned());
        }
        assert(texts(opts@) =~= flag(o.only_media, "only_media=1"@) + flag(
            o.exclude_replies,
            "exclude_replies=1"@,
        ));

        if self.pinned {
            opts.push("pinned=1".to_owned());
        }
        let ghost flags = flag(o.only_media, "only_media=1"@) + flag(
            o.exclude_replies,
            "exclude_replies=1"@,
        ) + flag(o.pinned, "pinned=1"@);
        assert(texts(opts@) =~= flags);

        if let Some(ref max_id) = self.max_id {
            let mut opt = "max_id=".to_owned();
            opt.append(max_id.as_str());
            opts.push(opt);
        }
        assert(texts(opts@) =~= flags + valued("max_id="@, o.max_id));

        if let Some(ref since_id) = self.since_id {
            let mut opt = "since_id=".to_owned();
            opt.append(since_id.as_str());
            opts.push(opt);
        }
        assert(texts(opts@) =~= flags + valued("max_id="@, o.max_id) + valued(
            "since_id="@,
            o.since_id,
        ));

        if let Some(limit) = self.limit {
            let mut opt = "limit=".to_owned();
            opt.append(decimal_string(limit as u64).as_str());
            opts.push(opt);
        }
        assert(texts(opts@) =~= o.parts());

        if opts.len() == 0 {
            String::new()
        } else {
            let mut query = "?".to_owned();
            query.append(join(&opts, "&").as_str());
            query
        }
    }
}

} // verus!
