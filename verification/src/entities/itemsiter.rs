//! The items of all the pages of a collection, as one stream.
//!
//! [`ItemsIter`] hands out the items of a page one by one, and after them
//! those of the pages that follow. It sends no request itself: where the next
//! page is needed, [`ItemsIter::next`] says from where to fetch it, and the
//! caller hands what came of the request to [`ItemsIter::fill_next_page`].
use vstd::prelude::*;
use vstd::pervasive::cloned;
use crate::cursor::{links_of, Relation};
use crate::page::{decoded, Advance, Fetched, Page, Response};
use crate::text::texts;

verus! {

/// Where a stream of items stands.
#[derive(Clone, Copy, Debug)]
pub enum Phase {
    /// The items of the first page are handed out.
    Initial,
    /// The items of a page that was fetched later are handed out.
    Fetched,
    /// A page was asked for, and what came of the request is awaited.
    Awaiting,
    /// The stream has ended, and stays so.
    Exhausted,
}

/// What a stream of items yields.
#[derive(Debug)]
pub enum Step<T> {
    /// The next item.
    Item(T),
    /// The next page is needed: it is to be fetched with a GET request to
    /// this URL, and what comes of it handed to
    /// [`ItemsIter::fill_next_page`].
    Fetch(String),
    /// The stream has ended.
    Done,
}

/// Abstracts away the `next_page` logic into a single stream of items.
pub struct ItemsIter<T> {
    page: Page<T>,
    buffer: Vec<T>,
    cur_idx: usize,
    phase: Phase,
}

/// What an [`ItemsIter`] stands for.
pub struct Stream<T> {
    /// The page that the stream began with, with the cursors as they stand.
    pub page: Page<T>,
    /// The items of the page that was fetched last.
    pub buffer: Seq<T>,
    /// How many items of the batch in use were handed out.
    pub position: int,
    pub phase: Phase,
}

impl<T> Stream<T> {
    /// The batch in use: the items of the first page, or those of the page
    /// that was fetched last. A stream that awaits a page, or has ended, has
    /// none.
    pub open spec fn batch(self) -> Seq<T> {
        match self.phase {
            Phase::Initial => self.page.items()@,
            Phase::Fetched => self.buffer,
            Phase::Awaiting => Seq::empty(),
            Phase::Exhausted => Seq::empty(),
        }
    }

    /// The position lies within the batch in use, or at its end.
    pub open spec fn wf(self) -> bool {
        0 <= self.position <= match self.phase {
            Phase::Initial => self.page.items()@.len() as int,
            Phase::Fetched => self.buffer.len() as int,
            Phase::Awaiting => self.position,
            Phase::Exhausted => self.position,
        }
    }

    /// Whether the batch in use is used up, so that the next item can only
    /// come from a further page.
    pub open spec fn needs_page(self) -> bool {
        self.position >= self.batch().len()
    }
}

impl<T: Clone> Stream<T> {
    /// Whether one step leads from the stream `self` to the stream `after`
    /// and yields `step`.
    ///
    /// While the batch in use holds an item that was not handed out, the
    /// step yields a clone of it. Else the stream goes on to the next page:
    /// where the page has a next cursor, the step asks for it to be fetched,
    /// and the cursor leaves the page; where it has none, the stream ends. A
    /// stream that awaits a page and is asked for an item ends as well, and
    /// a stream that has ended stays so.
    pub open spec fn stepped(self, after: Stream<T>, step: Step<T>) -> bool {
        if !self.needs_page() {
            &&& step is Item
            &&& cloned(self.batch()[self.position], step->Item_0)
            &&& after == Stream { position: self.position + 1, ..self }
        } else {
            match self.phase {
                Phase::Initial | Phase::Fetched => match self.page.cursor(Relation::Next) {
                    Some(url) => {
                        &&& step is Fetch
                        &&& step->Fetch_0@ == url
                        &&& self.page.advanced(
                            Relation::Next,
                            after.page,
                            Advance::Fetch(step->Fetch_0),
                        )
                        &&& after == Stream { page: after.page, phase: Phase::Awaiting, ..self }
                    },
                    None => step is Done && after == Stream { phase: Phase::Exhausted, ..self },
                },
                Phase::Awaiting | Phase::Exhausted => step is Done && after == Stream {
                    phase: Phase::Exhausted,
                    ..self
                },
            }
        }
    }

    /// Whether handing `fetched` to the stream `self` leads to the stream
    /// `after`, and `filled` says whether a new batch is in use.
    ///
    /// Only a stream that awaits a page takes one in: every other stream
    /// stays as it is. The page takes in the response. Where that gives
    /// items, they become the batch in use, from its start. Where it gives
    /// none, for whatever reason, the stream ends.
    pub open spec fn filled(self, fetched: Fetched<Vec<T>>, after: Stream<T>, filled: bool) -> bool {
        match self.phase {
            Phase::Awaiting => {
                &&& self.page.taken_in(fetched, after.page)
                &&& match Page::<T>::batch_of(fetched) {
                    Some(items) => filled && after == Stream {
                        page: after.page,
                        buffer: items@,
                        position: 0,
                        phase: Phase::Fetched,
                    },
                    None => !filled && after == Stream {
                        page: after.page,
                        phase: Phase::Exhausted,
                        ..self
                    },
                }
            },
            _ => !filled && after == self,
        }
    }
}

impl<T> View for ItemsIter<T> {
    type V = Stream<T>;

    closed spec fn view(&self) -> Stream<T> {
        Stream {
            page: self.page,
            buffer: self.buffer@,
            position: self.cur_idx as int,
            phase: self.phase,
        }
    }
}

impl<T: Clone> ItemsIter<T> {
    /// Begins the stream of the items of `page` and of the pages after it.
    pub fn new(page: Page<T>) -> (iter: ItemsIter<T>)
        ensures
            iter@ == (Stream { page, buffer: Seq::<T>::empty(), position: 0, phase: Phase::Initial }),
            iter@.wf(),
    {
        ItemsIter { page, buffer: Vec::new(), cur_idx: 0, phase: Phase::Initial }
    }

    /// Whether the batch in use is used up.
    pub fn need_next_page(&self) -> (needed: bool)
        ensures
            needed == self@.needs_page(),
    {
        match self.phase {
            Phase::Initial => self.cur_idx >= self.page.items_ref().len(),
            Phase::Fetched => self.cur_idx >= self.buffer.len(),
            Phase::Awaiting => true,
            Phase::Exhausted => true,
        }
    }

    /// Takes in what came of the request that [`ItemsIter::next`] asked for.
    ///
    /// Returns `Some(())` where a new batch is in use, and `None` where the
    /// stream has ended: no response came, a link of the response was
    /// malformed, or its body gave no items. The error is not handed on.
    pub fn fill_next_page(&mut self, fetched: Fetched<Vec<T>>) -> (filled: Option<()>)
        ensures
            old(self)@.filled(fetched, final(self)@, filled is Some),
            old(self)@.wf() ==> final(self)@.wf(),
    {
        match self.phase {
            Phase::Awaiting => {},
            _ => {
                return None;
            },
        }
        match self.page.receive(fetched) {
            Ok(items) => {
                self.buffer = items;
                self.cur_idx = 0;
                self.phase = Phase::Fetched;
                Some(())
            },
            Err(_) => {
                self.phase = Phase::Exhausted;
                None
            },
        }
    }

    /// Yields the next item of the stream, or says what is in its way.
    ///
    /// The items of the first page come first, in their order, then those of
    /// each page that is fetched. Where the batch in use is used up, the
    /// step asks for the next page, or ends the stream if there is none. A
    /// first page without items is used up from the start, so the stream
    /// goes on to the next page at once.
    pub fn next(&mut self) -> (step: Step<T>)
        ensures
            old(self)@.stepped(final(self)@, step),
            old(self)@.wf() ==> final(self)@.wf(),
    {
        let idx = self.cur_idx;
        match self.phase {
            Phase::Initial => {
                let items = self.page.items_ref();
                if idx < items.len() {
                    let item = items[idx].clone();
                    self.cur_idx = idx + 1;
                    return Step::Item(item);
                }
            },
            Phase::Fetched => {
                if idx < self.buffer.len() {
                    let item = self.buffer[idx].clone();
                    self.cur_idx = idx + 1;
                    return Step::Item(item);
                }
            },
            _ => {},
        }
        match self.phase {
            Phase::Initial | Phase::Fetched => match self.page.next_page() {
                Advance::Fetch(url) => {
                    self.phase = Phase::Awaiting;
                    Step::Fetch(url)
                },
                Advance::Exhausted => {
                    self.phase = Phase::Exhausted;
                    Step::Done
                },
            },
            _ => {
                self.phase = Phase::Exhausted;
                Step::Done
            },
        }
    }
}

/// A stream over a first page with the items `a` and `b` and a next cursor,
/// whose next page holds the item `c` and names no further page, yields `a`,
/// `b`, the request for the next page and then `c`, and ends after that.
pub proof fn two_pages_stream<T: Clone>(
    a: T,
    b: T,
    c: T,
    url: Seq<char>,
    page: Page<T>,
    response: Response<Vec<T>>,
    streams: Seq<Stream<T>>,
    steps: Seq<Step<T>>,
    filled: bool,
)
    requires
        page.items()@ == seq![a, b],
        page.cursor(Relation::Next) == Some(url),
        links_of(texts(response.link_headers@)) matches Some((_, None)),
        decoded(response.body) is Ok,
        decoded(response.body)->Ok_0@ == seq![c],
        streams.len() == 8,
        steps.len() == 6,
        streams[0] == (Stream { page, buffer: Seq::<T>::empty(), position: 0, phase: Phase::Initial }),
        streams[0].stepped(streams[1], steps[0]),
        streams[1].stepped(streams[2], steps[1]),
        streams[2].stepped(streams[3], steps[2]),
        streams[3].filled(Fetched::Answered(response), streams[4], filled),
        streams[4].stepped(streams[5], steps[3]),
        streams[5].stepped(streams[6], steps[4]),
        streams[6].stepped(streams[7], steps[5]),
    ensures
        steps[0] is Item && cloned(a, steps[0]->Item_0),
        steps[1] is Item && cloned(b, steps[1]->Item_0),
        steps[2] is Fetch && steps[2]->Fetch_0@ == url,
        filled,
        steps[3] is Item && cloned(c, steps[3]->Item_0),
        steps[4] is Done,
        steps[5] is Done,
{
    assert(streams[0].batch() == seq![a, b]);
    assert(streams[1].batch() == seq![a, b]);
    assert(streams[2].batch() == seq![a, b]);
    assert(streams[4].batch() == seq![c]);
}

/// A stream over a first page without items does not end while the page has
/// a next cursor: its first step asks for that page, and the items of that
/// page are the next batch.
pub proof fn empty_first_page_goes_on<T: Clone>(
    url: Seq<char>,
    page: Page<T>,
    fetched: Fetched<Vec<T>>,
    asked: Stream<T>,
    step: Step<T>,
    after: Stream<T>,
    filled: bool,
)
    requires
        page.items()@.len() == 0,
        page.cursor(Relation::Next) == Some(url),
        (Stream { page, buffer: Seq::<T>::empty(), position: 0, phase: Phase::Initial }).stepped(
            asked,
            step,
        ),
        asked.filled(fetched, after, filled),
    ensures
        step is Fetch && step->Fetch_0@ == url,
        asked.phase is Awaiting,
        Page::<T>::batch_of(fetched) matches Some(items) ==> filled && after.wf() && after.batch()
            == items@ && after.position == 0,
        Page::<T>::batch_of(fetched) is None ==> !filled && after.phase is Exhausted,
{
}

/// A stream that has ended stays so: it yields nothing more, and takes no
/// page in.
pub proof fn ended_stays_ended<T: Clone>(
    stream: Stream<T>,
    after: Stream<T>,
    step: Step<T>,
    fetched: Fetched<Vec<T>>,
    taken: Stream<T>,
    filled: bool,
)
    requires
        stream.wf(),
        stream.phase is Exhausted,
        stream.stepped(after, step),
        stream.filled(fetched, taken, filled),
    ensures
        step is Done,
        after == stream,
        !filled,
        taken == stream,
{
}

} // verus!
