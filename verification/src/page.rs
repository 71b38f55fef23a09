//! One page of a paginated collection, and the way to its neighbours.
//!
//! The library sends no request itself. [`Page::next_page`] and
//! [`Page::prev_page`] say whether there is a page to fetch and from where;
//! the caller sends the request and hands what came of it to
//! [`Page::receive`].
use vstd::prelude::*;
use crate::cursor::{get_links, links_of, Relation};
use crate::entities::itemsiter::{ItemsIter, Phase, Stream};
use crate::errors::{ApiError, Error};
use crate::text::{text_of, texts};

verus! {

/// What became of the body of a response.
#[derive(Debug)]
pub enum Body<T> {
    /// The body could not be read. The message of the failure is held.
    Unreadable(String),
    /// The body was read.
    Read {
        /// The body decoded as the type that was asked for, or the message
        /// of the decoder.
        value: Result<T, String>,
        /// The body decoded as an error object of the API, if it is one.
        api_error: Option<ApiError>,
    },
}

/// What the library reads of a completed HTTP response.
#[derive(Debug)]
pub struct Response<T> {
    /// The values of the `Link` headers of the response, in their order.
    pub link_headers: Vec<String>,
    /// The body.
    pub body: Body<T>,
}

/// What came of a request.
#[derive(Debug)]
pub enum Fetched<T> {
    /// No response came. The message of the transport is held.
    Failed(String),
    /// This response came.
    Answered(Response<T>),
}

/// What is to be done to reach a neighbouring page.
#[derive(Debug)]
pub enum Advance {
    /// There is no further page in that direction: no request is to be made.
    Exhausted,
    /// The page is to be fetched with a GET request to this URL, and what
    /// comes of it handed to [`Page::receive`].
    Fetch(String),
}

/// What a body gives: its value where it decoded as the type that was asked
/// for; else the error object of the API, if the body is one; else the
/// failure of the decoder.
pub open spec fn decoded<T>(body: Body<T>) -> Result<T, Error> {
    match body {
        Body::Unreadable(message) => Err(Error::Io(message)),
        Body::Read { value: Ok(value), api_error: _ } => Ok(value),
        Body::Read { value: Err(_), api_error: Some(error) } => Err(Error::Api(error)),
        Body::Read { value: Err(message), api_error: None } => Err(Error::Serde(message)),
    }
}

/// Gives the value of a body, or the error that stands for it.
///
/// A body that did not decode as the type that was asked for is looked at
/// once more: where it is an error object of the API, that object is the
/// error, and only else the failure of the decoder.
pub fn deserialise<T>(body: Body<T>) -> (r: Result<T, Error>)
    ensures
        r == decoded(body),
{
    match body {
        Body::Unreadable(message) => Err(Error::Io(message)),
        Body::Read { value, api_error } => match value {
            Ok(value) => Ok(value),
            Err(message) => match api_error {
                Some(error) => Err(Error::Api(error)),
                None => Err(Error::Serde(message)),
            },
        },
    }
}

/// One page of results, with the cursors of its neighbours.
pub struct Page<T> {
    next: Option<String>,
    prev: Option<String>,
    /// Initial set of items
    pub initial_items: Vec<T>,
}

impl<T> Page<T> {
    /// The URL of the page after this one, if there is one.
    pub closed spec fn next_cursor(&self) -> Option<Seq<char>> {
        text_of(self.next)
    }

    /// The URL of the page before this one, if there is one.
    pub closed spec fn prev_cursor(&self) -> Option<Seq<char>> {
        text_of(self.prev)
    }

    /// The items that the page was made with.
    pub closed spec fn items(&self) -> Vec<T> {
        self.initial_items
    }

    /// The cursor of the direction `rel`.
    pub open spec fn cursor(&self, rel: Relation) -> Option<Seq<char>> {
        match rel {
            Relation::Next => self.next_cursor(),
            Relation::Prev => self.prev_cursor(),
        }
    }

    /// The cursor of the direction opposite to `rel`.
    pub open spec fn other_cursor(&self, rel: Relation) -> Option<Seq<char>> {
        match rel {
            Relation::Next => self.prev_cursor(),
            Relation::Prev => self.next_cursor(),
        }
    }

    /// Whether `made` is what [`Page::new`] makes of `response`.
    ///
    /// The cursors are read first: a malformed link fails the page whatever
    /// the body holds. Then the body gives the items or the error.
    pub open spec fn created(response: Response<Vec<T>>, made: Result<Page<T>, Error>) -> bool {
        match links_of(texts(response.link_headers@)) {
            None => made is Err && made->Err_0 is Url,
            Some((prev, next)) => match decoded(response.body) {
                Ok(items) => {
                    &&& made is Ok
                    &&& made->Ok_0.items() == items
                    &&& made->Ok_0.prev_cursor() == prev
                    &&& made->Ok_0.next_cursor() == next
                },
                Err(e) => made == Err::<Page<T>, Error>(e),
            },
        }
    }

    /// Whether a step in the direction `rel` leads from the page `self` to
    /// the page `after` with the action `action`.
    ///
    /// Without a cursor nothing changes and nothing is to be fetched. With
    /// one, that cursor is to be fetched and leaves the page: a cursor is
    /// followed once.
    pub open spec fn advanced(self, rel: Relation, after: Page<T>, action: Advance) -> bool {
        match self.cursor(rel) {
            None => action is Exhausted && after == self,
            Some(url) => {
                &&& action is Fetch
                &&& action->Fetch_0@ == url
                &&& after.cursor(rel) is None
                &&& after.other_cursor(rel) == self.other_cursor(rel)
                &&& after.items() == self.items()
            },
        }
    }

    /// Whether taking in `fetched` leads from the page `self` to the page
    /// `after`.
    ///
    /// A request that failed changes nothing, and neither does a response
    /// with a malformed link. Every other response sets both cursors,
    /// whether or not its body gives items.
    pub open spec fn taken_in(self, fetched: Fetched<Vec<T>>, after: Page<T>) -> bool {
        match fetched {
            Fetched::Failed(_) => after == self,
            Fetched::Answered(response) => match links_of(texts(response.link_headers@)) {
                None => after == self,
                Some((prev, next)) => {
                    &&& after.prev_cursor() == prev
                    &&& after.next_cursor() == next
                    &&& after.items() == self.items()
                },
            },
        }
    }

    /// Whether `items` is what `fetched` gives: the failure of the
    /// transport, else that of a malformed link, else what the body gives.
    pub open spec fn given(fetched: Fetched<Vec<T>>, items: Result<Vec<T>, Error>) -> bool {
        match fetched {
            Fetched::Failed(message) => items == Err::<Vec<T>, Error>(Error::Http(message)),
            Fetched::Answered(response) => match links_of(texts(response.link_headers@)) {
                None => items is Err && items->Err_0 is Url,
                Some(_) => items == decoded(response.body),
            },
        }
    }

    /// The items of the page that `fetched` holds, if it holds one.
    pub open spec fn batch_of(fetched: Fetched<Vec<T>>) -> Option<Vec<T>> {
        match fetched {
            Fetched::Failed(_) => None,
            Fetched::Answered(response) => match links_of(texts(response.link_headers@)) {
                None => None,
                Some(_) => match decoded(response.body) {
                    Ok(items) => Some(items),
                    Err(_) => None,
                },
            },
        }
    }

    /// Makes the page that a response holds: its items, and the cursors that
    /// its `Link` headers give.
    pub fn new(response: Response<Vec<T>>) -> (made: Result<Page<T>, Error>)
        ensures
            Self::created(response, made),
    {
        let Response { link_headers, body } = response;
        let (prev, next) = match get_links(&link_headers) {
            Ok(links) => links,
            Err(e) => {
                return Err(e);
            },
        };
        match deserialise(body) {
            Ok(initial_items) => Ok(Page { next, prev, initial_items }),
            Err(e) => Err(e),
        }
    }

    /// The items that the page was made with.
    pub fn items_ref(&self) -> (items: &Vec<T>)
        ensures
            *items == self.items(),
    {
        &self.initial_items
    }

    /// Says how to reach the page after this one.
    ///
    /// Where the page has a next cursor, the cursor leaves the page and is
    /// handed out to be fetched. Where it has none, nothing is to be fetched
    /// and the page stays as it is.
    pub fn next_page(&mut self) -> (action: Advance)
        ensures
            old(self).advanced(Relation::Next, *final(self), action),
    {
        match self.next.take() {
            Some(url) => Advance::Fetch(url),
            None => Advance::Exhausted,
        }
    }

    /// Says how to reach the page before this one. See [`Page::next_page`].
    pub fn prev_page(&mut self) -> (action: Advance)
        ensures
            old(self).advanced(Relation::Prev, *final(self), action),
    {
        match self.prev.take() {
            Some(url) => Advance::Fetch(url),
            None => Advance::Exhausted,
        }
    }

    /// Takes in what came of the request that [`Page::next_page`] or
    /// [`Page::prev_page`] asked for, and gives the items of the new page.
    ///
    /// The cursors of the response replace those of the page before the body
    /// is looked at, so they are set also where the body gives an error.
    pub fn receive(&mut self, fetched: Fetched<Vec<T>>) -> (items: Result<Vec<T>, Error>)
        ensures
            old(self).taken_in(fetched, *final(self)),
            Self::given(fetched, items),
            items is Ok <==> Self::batch_of(fetched) is Some,
            items matches Ok(batch) ==> Self::batch_of(fetched) == Some(batch),
    {
        match fetched {
            Fetched::Failed(message) => Err(Error::Http(message)),
            Fetched::Answered(response) => {
                let Response { link_headers, body } = response;
                let (prev, next) = match get_links(&link_headers) {
                    Ok(links) => links,
                    Err(e) => {
                        return Err(e);
                    },
                };
                self.next = next;
                self.prev = prev;
                deserialise(body)
            },
        }
    }
}

impl<T: Clone> Page<T> {
    /// Returns a stream that provides the items of this page and of the
    /// pages after it.
    ///
    /// This abstracts away the process of going over each item in a page,
    /// then fetching the next page, then going over each item in the new
    /// page, and so on, until there are no more items.
    pub fn items_iter(self) -> (iter: ItemsIter<T>)
        ensures
            iter@ == (Stream {
                page: self,
                buffer: Seq::<T>::empty(),
                position: 0,
                phase: Phase::Initial,
            }),
            iter@.wf(),
    {
        ItemsIter::new(self)
    }
}

/// A page made of a response that names no next page is the last one: a step
/// to the next page asks for no request and leaves the page as it is, with the
/// items that the body gave.
pub proof fn last_page_is_exhausted<T>(
    response: Response<Vec<T>>,
    page: Page<T>,
    after: Page<T>,
    action: Advance,
)
    requires
        links_of(texts(response.link_headers@)) matches Some((_, None)),
        Page::created(response, Ok(page)),
        page.advanced(Relation::Next, after, action),
    ensures
        decoded(response.body) == Ok::<Vec<T>, Error>(page.items()),
        action is Exhausted,
        after == page,
{
}

} // verus!
