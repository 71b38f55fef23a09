//! The cursors of a response: the URLs of the neighbouring pages, as its
//! `Link` headers name them.
use vstd::prelude::*;
use crate::errors::Error;
use crate::link::{entries_of, link_values, parse_link_header, rel_next, rel_prev, LinkEntry};
use crate::link_form::{plain_entries, plain_header, plain_header_is_read, PlainLink};
use crate::text::{text_of, texts};

verus! {

/// The relation of a link that the library follows.
#[derive(Clone, Copy, Debug)]
pub enum Relation {
    /// The page after this one.
    Next,
    /// The page before this one.
    Prev,
}

/// A link of a header, with what the URL parser made of its target.
#[derive(Debug)]
pub struct ParsedLink {
    /// Whether `next` is among the relation types of the link.
    pub next: bool,
    /// Whether `prev` is among the relation types of the link.
    pub prev: bool,
    /// The target as an absolute URL, or why it is none.
    pub url: Result<String, url::ParseError>,
}

/// What a [`ParsedLink`] stands for: the relations of a link, and its target
/// as an absolute URL, if it is one.
pub struct Candidate {
    pub next: bool,
    pub prev: bool,
    pub url: Option<Seq<char>>,
}

impl View for ParsedLink {
    type V = Candidate;

    open spec fn view(&self) -> Candidate {
        Candidate {
            next: self.next,
            prev: self.prev,
            url: match self.url {
                Ok(u) => Some(u@),
                Err(_) => None,
            },
        }
    }
}

/// The candidates that a list of parsed links stands for.
pub open spec fn candidates_of(links: Seq<ParsedLink>) -> Seq<Candidate> {
    links.map_values(|l: ParsedLink| l@)
}

impl Candidate {
    /// Whether the link has the relation `rel`.
    pub open spec fn has(self, rel: Relation) -> bool {
        match rel {
            Relation::Next => self.next,
            Relation::Prev => self.prev,
        }
    }

    /// Whether the link is one that the library follows, and its target is no
    /// absolute URL.
    pub open spec fn malformed(self) -> bool {
        (self.next || self.prev) && self.url is None
    }
}

/// Whether some link that the library follows has a target that is no
/// absolute URL.
pub open spec fn any_malformed(links: Seq<Candidate>) -> bool {
    exists|i: int| 0 <= i < links.len() && (#[trigger] links[i]).malformed()
}

/// Whether `at` is the first link that the library follows and whose target
/// is no absolute URL.
pub open spec fn first_malformed(links: Seq<Candidate>, at: int) -> bool {
    &&& 0 <= at < links.len()
    &&& links[at].malformed()
    &&& forall|j: int| 0 <= j < at ==> !(#[trigger] links[j]).malformed()
}

/// The URL of the last link with the relation `rel`; `None` if no link has
/// that relation.
pub open spec fn cursor(links: Seq<Candidate>, rel: Relation) -> Option<Seq<char>>
    decreases links.len(),
{
    if links.len() == 0 {
        None
    } else if links.last().has(rel) {
        links.last().url
    } else {
        cursor(links.drop_last(), rel)
    }
}

/// The cursors that the links give, the previous page first: `None` if one of
/// the links that the library follows has a target that is no absolute URL.
pub open spec fn cursors(links: Seq<Candidate>) -> Option<(Option<Seq<char>>, Option<Seq<char>>)> {
    if any_malformed(links) {
        None
    } else {
        Some((cursor(links, Relation::Prev), cursor(links, Relation::Next)))
    }
}

/// The serialisation of the absolute URL that `text` denotes, as the `url`
/// crate reads it; `None` where `text` denotes none.
pub uninterp spec fn parsed_url(text: Seq<char>) -> Option<Seq<char>>;

/// Calls `url::Url::parse` and hands out the serialisation of the URL.
///
/// Nothing is proved of the parser. The contract only gives its result a
/// name: what comes back is `parsed_url` of the text, and an error comes back
/// exactly where that is `None`.
#[verifier::external_body]
fn parse_url(text: &str) -> (url: Result<String, url::ParseError>)
    ensures
        match url {
            Ok(u) => parsed_url(text@) == Some(u@),
            Err(_) => parsed_url(text@) is None,
        },
{
    url::Url::parse(text).map(String::from)
}

/// Chooses the cursors among the links of a response.
///
/// The links are gone through in the order of the header. A link with the
/// relation `next` sets the next cursor, one with `prev` the previous one, so
/// that the last link of a relation decides. The first such link whose target
/// is no absolute URL ends the work with its error. A link with neither
/// relation is passed over, whatever its target is.
///
/// The result holds the previous cursor first, then the next one.
pub fn select_links(links: &Vec<ParsedLink>) -> (r: Result<
    (Option<String>, Option<String>),
    Error,
>)
    ensures
        match r {
            Ok((prev, next)) => cursors(candidates_of(links@)) == Some(
                (text_of(prev), text_of(next)),
            ),
            Err(e) => exists|at: int|
                first_malformed(candidates_of(links@), at) && links@[at].url is Err && e
                    == Error::Url(links@[at].url->Err_0),
        },
        r is Err <==> any_malformed(candidates_of(links@)),
{
    let mut prev: Option<String> = None;
    let mut next: Option<String> = None;
    let mut i: usize = 0;
    let ghost all = candidates_of(links@);
    assert(all.take(0) =~= Seq::<Candidate>::empty());
    while i < links.len()
        invariant
            i <= links.len(),
            all == candidates_of(links@),
            forall|j: int| 0 <= j < i ==> !(#[trigger] all[j]).malformed(),
            text_of(prev) == cursor(all.take(i as int), Relation::Prev),
            text_of(next) == cursor(all.take(i as int), Relation::Next),
        decreases links.len() - i,
    {
        let link = &links[i];
        assert(all[i as int] == link@);
        assert(all.take(i as int + 1).drop_last() =~= all.take(i as int));
        assert(all.take(i as int + 1).last() == all[i as int]);
        if link.next || link.prev {
            match &link.url {
                Ok(url) => {
                    if link.next {
                        next = Some(url.clone());
                    }
                    if link.prev {
                        prev = Some(url.clone());
                    }
                },
                Err(e) => {
                    assert(first_malformed(all, i as int));
                    return Err(Error::Url(*e));
                },
            }
        }
        i += 1;
    }
    assert(all.take(i as int) =~= all);
    Ok((prev, next))
}

/// The link-values of all the `Link` headers of a response, in the order of
/// the headers.
pub open spec fn header_links(headers: Seq<Seq<char>>) -> Seq<LinkEntry>
    decreases headers.len(),
{
    if headers.len() == 0 {
        Seq::empty()
    } else {
        header_links(headers.drop_last()) + link_values(headers.last())
    }
}

/// A link-value with its target read as a URL.
pub open spec fn candidate(entry: LinkEntry) -> Candidate {
    Candidate { next: entry.next, prev: entry.prev, url: parsed_url(entry.target) }
}

/// The link-values with their targets read as URLs.
pub open spec fn candidates(entries: Seq<LinkEntry>) -> Seq<Candidate> {
    entries.map_values(|e: LinkEntry| candidate(e))
}

/// The cursors that the `Link` headers of a response give, the previous page
/// first; `None` if a link that the library follows has a target that is no
/// absolute URL.
pub open spec fn links_of(headers: Seq<Seq<char>>) -> Option<
    (Option<Seq<char>>, Option<Seq<char>>),
> {
    cursors(candidates(header_links(headers)))
}

/// Reads the cursors of a response from the values of its `Link` headers.
///
/// Each header is read by the grammar of [`parse_link_header`], the target of
/// each link-value is handed to the URL parser, and [`select_links`] chooses
/// among the outcomes. A response without a `Link` header has no cursors. The
/// only failure is a link with the relation `next` or `prev` whose target is
/// no absolute URL; its error is [`Error::Url`].
///
/// The result holds the previous cursor first, then the next one.
pub fn get_links(link_headers: &Vec<String>) -> (r: Result<
    (Option<String>, Option<String>),
    Error,
>)
    ensures
        match r {
            Ok((prev, next)) => links_of(texts(link_headers@)) == Some(
                (text_of(prev), text_of(next)),
            ),
            Err(e) => e is Url && links_of(texts(link_headers@)) is None,
        },
{
    let ghost all = texts(link_headers@);
    let mut parsed: Vec<ParsedLink> = Vec::new();
    let mut h: usize = 0;
    assert(all.take(0) =~= Seq::<Seq<char>>::empty());
    assert(candidates_of(parsed@) =~= candidates(header_links(all.take(0))));
    while h < link_headers.len()
        invariant
            h <= link_headers.len(),
            all == texts(link_headers@),
            candidates_of(parsed@) == candidates(header_links(all.take(h as int))),
        decreases link_headers.len() - h,
    {
        let values = parse_link_header(link_headers[h].as_str());
        let ghost base = header_links(all.take(h as int));
        let ghost entries = link_values(all[h as int]);
        let mut k: usize = 0;
        assert(base + entries.take(0) =~= base);
        while k < values.len()
            invariant
                k <= values.len(),
                entries == entries_of(values@),
                candidates_of(parsed@) == candidates(base + entries.take(k as int)),
            decreases values.len() - k,
        {
            let value = &values[k];
            let url = parse_url(value.link.as_str());
            let ghost before = parsed@;
            let link = ParsedLink { next: value.next, prev: value.prev, url };
            assert(link@ == candidate(entries[k as int]));
            parsed.push(link);
            assert(base + entries.take(k as int + 1) =~= (base + entries.take(k as int)).push(
                entries[k as int],
            ));
            assert(candidates_of(parsed@) =~= candidates_of(before).push(link@));
            assert(candidates((base + entries.take(k as int)).push(entries[k as int]))
                =~= candidates(base + entries.take(k as int)).push(candidate(entries[k as int])));
            k += 1;
        }
        assert(entries.take(k as int) =~= entries);
        assert(all.take(h as int + 1).drop_last() =~= all.take(h as int));
        assert(all.take(h as int + 1).last() == all[h as int]);
        h += 1;
    }
    assert(all.take(h as int) =~= all);
    match select_links(&parsed) {
        Ok(links) => Ok(links),
        Err(e) => Err(e),
    }
}

/// The cursor of a relation is the URL of the last link that has it.
pub proof fn cursor_is_last(links: Seq<Candidate>, rel: Relation, at: int)
    requires
        0 <= at < links.len(),
        links[at].has(rel),
        forall|j: int| at < j < links.len() ==> !(#[trigger] links[j]).has(rel),
    ensures
        cursor(links, rel) == links[at].url,
    decreases links.len(),
{
    if at < links.len() - 1 {
        assert(!links[links.len() - 1].has(rel));
        cursor_is_last(links.drop_last(), rel, at);
    }
}

/// Where no link has a relation, that relation has no cursor.
pub proof fn cursor_absent(links: Seq<Candidate>, rel: Relation)
    requires
        forall|j: int| 0 <= j < links.len() ==> !(#[trigger] links[j]).has(rel),
    ensures
        cursor(links, rel) is None,
    decreases links.len(),
{
    if links.len() > 0 {
        assert(!links[links.len() - 1].has(rel));
        cursor_absent(links.drop_last(), rel);
    }
}

/// A response without a `Link` header has neither cursor.
pub proof fn no_header_no_cursors(headers: Seq<Seq<char>>)
    requires
        headers.len() == 0,
    ensures
        links_of(headers) == Some((None::<Seq<char>>, None::<Seq<char>>)),
{
    let links = candidates(header_links(headers));
    assert(links.len() == 0);
    assert(!any_malformed(links));
}

/// Where exactly one link of the headers has the relation `next`, none has
/// `prev`, and the target of that link is an absolute URL, the response has
/// that URL as its next cursor and no previous one.
pub proof fn only_next_link(headers: Seq<Seq<char>>, at: int)
    requires
        0 <= at < header_links(headers).len(),
        header_links(headers)[at].next,
        parsed_url(header_links(headers)[at].target) is Some,
        forall|j: int|
            0 <= j < header_links(headers).len() && j != at ==> !(#[trigger] header_links(
                headers,
            )[j]).next,
        forall|j: int|
            0 <= j < header_links(headers).len() ==> !(#[trigger] header_links(headers)[j]).prev,
    ensures
        links_of(headers) == Some(
            (None::<Seq<char>>, parsed_url(header_links(headers)[at].target)),
        ),
{
    let entries = header_links(headers);
    let links = candidates(entries);
    assert forall|j: int| 0 <= j < links.len() implies !(#[trigger] links[j]).malformed() by {
        assert(links[j] == candidate(entries[j]));
        assert(!entries[j].prev);
        if j != at {
            assert(!entries[j].next);
        }
    }
    assert forall|j: int| 0 <= j < links.len() implies !(#[trigger] links[j]).has(
        Relation::Prev,
    ) by {
        assert(!entries[j].prev);
    }
    assert forall|j: int| at < j < links.len() implies !(#[trigger] links[j]).has(
        Relation::Next,
    ) by {
        assert(!entries[j].next);
    }
    cursor_absent(links, Relation::Prev);
    cursor_is_last(links, Relation::Next, at);
}

/// Where exactly one link of the headers has the relation `next` and exactly
/// one has `prev`, and both targets are absolute URLs, the response has both
/// cursors, whichever of the two links comes first.
pub proof fn next_and_prev_links(headers: Seq<Seq<char>>, next_at: int, prev_at: int)
    requires
        0 <= next_at < header_links(headers).len(),
        0 <= prev_at < header_links(headers).len(),
        header_links(headers)[next_at].next,
        header_links(headers)[prev_at].prev,
        parsed_url(header_links(headers)[next_at].target) is Some,
        parsed_url(header_links(headers)[prev_at].target) is Some,
        forall|j: int|
            0 <= j < header_links(headers).len() && j != next_at ==> !(#[trigger] header_links(
                headers,
            )[j]).next,
        forall|j: int|
            0 <= j < header_links(headers).len() && j != prev_at ==> !(#[trigger] header_links(
                headers,
            )[j]).prev,
    ensures
        links_of(headers) == Some(
            (
                parsed_url(header_links(headers)[prev_at].target),
                parsed_url(header_links(headers)[next_at].target),
            ),
        ),
{
    let entries = header_links(headers);
    let links = candidates(entries);
    assert forall|j: int| 0 <= j < links.len() implies !(#[trigger] links[j]).malformed() by {
        assert(links[j] == candidate(entries[j]));
        if j != next_at {
            assert(!entries[j].next);
        }
        if j != prev_at {
            assert(!entries[j].prev);
        }
    }
    assert forall|j: int| prev_at < j < links.len() implies !(#[trigger] links[j]).has(
        Relation::Prev,
    ) by {
        assert(!entries[j].prev);
    }
    assert forall|j: int| next_at < j < links.len() implies !(#[trigger] links[j]).has(
        Relation::Next,
    ) by {
        assert(!entries[j].next);
    }
    cursor_is_last(links, Relation::Prev, prev_at);
    cursor_is_last(links, Relation::Next, next_at);
}

/// Where a link of the headers has the relation `next` or `prev` and its
/// target is no absolute URL, the response has no reading.
pub proof fn malformed_link_fails(headers: Seq<Seq<char>>, at: int)
    requires
        0 <= at < header_links(headers).len(),
        header_links(headers)[at].next || header_links(headers)[at].prev,
        parsed_url(header_links(headers)[at].target) is None,
    ensures
        links_of(headers) is None,
{
    let links = candidates(header_links(headers));
    assert(links[at].malformed());
}

/// The links of a response with one header of the usual form are the links
/// that the header was written from.
pub proof fn plain_header_links(links: Seq<PlainLink>)
    requires
        forall|i: int| 0 <= i < links.len() ==> (#[trigger] links[i]).wf(),
    ensures
        header_links(seq![plain_header(links)]) == plain_entries(links),
{
    let headers = seq![plain_header(links)];
    plain_header_is_read(links);
    assert(headers.drop_last() =~= Seq::<Seq<char>>::empty());
    assert(header_links(headers.drop_last()) =~= Seq::<LinkEntry>::empty());
    assert(header_links(headers) =~= link_values(headers.last()));
}

/// A response whose `Link` header was written from links of which exactly
/// one has the relation type `next` and none has `prev` has the target of
/// that link as its next cursor, where it is an absolute URL, and no previous
/// cursor.
pub proof fn header_with_next(links: Seq<PlainLink>, at: int)
    requires
        forall|i: int| 0 <= i < links.len() ==> (#[trigger] links[i]).wf(),
        0 <= at < links.len(),
        links[at].rel == rel_next(),
        parsed_url(links[at].target) is Some,
        forall|j: int| 0 <= j < links.len() && j != at ==> (#[trigger] links[j]).rel != rel_next(),
        forall|j: int| 0 <= j < links.len() ==> (#[trigger] links[j]).rel != rel_prev(),
    ensures
        links_of(seq![plain_header(links)]) == Some(
            (None::<Seq<char>>, parsed_url(links[at].target)),
        ),
{
    let headers = seq![plain_header(links)];
    plain_header_links(links);
    let entries = header_links(headers);
    assert forall|j: int| 0 <= j < entries.len() && j != at implies !(#[trigger] entries[j]).next by {
        assert(entries[j] == links[j].entry());
    }
    assert forall|j: int| 0 <= j < entries.len() implies !(#[trigger] entries[j]).prev by {
        assert(entries[j] == links[j].entry());
    }
    assert(entries[at] == links[at].entry());
    only_next_link(headers, at);
}

/// A response whose `Link` header was written from links of which exactly
/// one has the relation type `next` and exactly one has `prev` has the
/// targets of the two as its cursors, where they are absolute URLs,
/// whichever of the two links comes first.
pub proof fn header_with_next_and_prev(links: Seq<PlainLink>, next_at: int, prev_at: int)
    requires
        forall|i: int| 0 <= i < links.len() ==> (#[trigger] links[i]).wf(),
        0 <= next_at < links.len(),
        0 <= prev_at < links.len(),
        links[next_at].rel == rel_next(),
        links[prev_at].rel == rel_prev(),
        parsed_url(links[next_at].target) is Some,
        parsed_url(links[prev_at].target) is Some,
        forall|j: int|
            0 <= j < links.len() && j != next_at ==> (#[trigger] links[j]).rel != rel_next(),
        forall|j: int|
            0 <= j < links.len() && j != prev_at ==> (#[trigger] links[j]).rel != rel_prev(),
    ensures
        links_of(seq![plain_header(links)]) == Some(
            (parsed_url(links[prev_at].target), parsed_url(links[next_at].target)),
        ),
{
    let headers = seq![plain_header(links)];
    plain_header_links(links);
    let entries = header_links(headers);
    assert forall|j: int| 0 <= j < entries.len() && j != next_at implies !(
    #[trigger] entries[j]).next by {
        assert(entries[j] == links[j].entry());
    }
    assert forall|j: int| 0 <= j < entries.len() && j != prev_at implies !(
    #[trigger] entries[j]).prev by {
        assert(entries[j] == links[j].entry());
    }
    assert(entries[next_at] == links[next_at].entry());
    assert(entries[prev_at] == links[prev_at].entry());
    next_and_prev_links(headers, next_at, prev_at);
}

/// A response whose `Link` header was written from links of which one has
/// the relation type `next` or `prev` and a target that is no absolute URL
/// has no reading.
pub proof fn header_with_malformed_link(links: Seq<PlainLink>, at: int)
    requires
        forall|i: int| 0 <= i < links.len() ==> (#[trigger] links[i]).wf(),
        0 <= at < links.len(),
        links[at].rel == rel_next() || links[at].rel == rel_prev(),
        parsed_url(links[at].target) is None,
    ensures
        links_of(seq![plain_header(links)]) is None,
{
    let headers = seq![plain_header(links)];
    plain_header_links(links);
    assert(header_links(headers)[at] == links[at].entry());
    malformed_link_fails(headers, at);
}

} // verus!
