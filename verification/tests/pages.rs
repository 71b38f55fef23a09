use mammut::entities::itemsiter::{ItemsIter, Step};
use mammut::errors::{ApiError, Error};
use mammut::page::{deserialise, Advance, Body, Fetched, Page, Response};

const SECOND: &str = "https://example.com/api/v1/timelines/home?max_id=7";
const THIRD: &str = "https://example.com/api/v1/timelines/home?max_id=3";
const BEFORE: &str = "https://example.com/api/v1/timelines/home?min_id=9";

fn body<T>(items: Vec<T>) -> Body<Vec<T>> {
    Body::Read { value: Ok(items), api_error: None }
}

fn response<T>(links: &[(&str, &str)], items: Vec<T>) -> Response<Vec<T>> {
    let link_headers = links.iter().map(|(url, rel)| format!("<{}>; rel=\"{}\"", url, rel)).collect();
    Response { link_headers, body: body(items) }
}

fn item<T: std::fmt::Debug>(step: Step<T>) -> T {
    match step {
        Step::Item(item) => item,
        other => panic!("an item was expected, not {:?}", other),
    }
}

fn fetch<T: std::fmt::Debug>(step: Step<T>) -> String {
    match step {
        Step::Fetch(url) => url,
        other => panic!("a request was expected, not {:?}", other),
    }
}

#[test]
fn deserialise_gives_the_value() {
    let r = deserialise(Body::Read { value: Ok(5u8), api_error: None });
    assert!(matches!(r, Ok(5)));
    let api = ApiError { error: Some("e".to_string()), error_description: None };
    let r = deserialise(Body::Read { value: Ok(5u8), api_error: Some(api) });
    assert!(matches!(r, Ok(5)));
}

#[test]
fn deserialise_prefers_the_error_of_the_api() {
    let api = ApiError { error: Some("invalid_token".to_string()), error_description: None };
    let r = deserialise::<u8>(Body::Read { value: Err("expected a number".to_string()), api_error: Some(api) });
    match r {
        Err(Error::Api(e)) => assert_eq!(e.error.as_deref(), Some("invalid_token")),
        other => panic!("unexpected: {:?}", other),
    }
}

#[test]
fn deserialise_hands_on_the_failure_of_the_decoder() {
    let r = deserialise::<u8>(Body::Read { value: Err("expected a number".to_string()), api_error: None });
    match r {
        Err(Error::Serde(m)) => assert_eq!(m, "expected a number"),
        other => panic!("unexpected: {:?}", other),
    }
}

#[test]
fn deserialise_of_an_unread_body() {
    let r = deserialise::<u8>(Body::Unreadable("connection reset".to_string()));
    match r {
        Err(Error::Io(m)) => assert_eq!(m, "connection reset"),
        other => panic!("unexpected: {:?}", other),
    }
}

#[test]
fn page_without_cursor_has_no_further_page() {
    let mut page = Page::new(response(&[], vec![1, 2, 3])).unwrap();
    assert_eq!(page.initial_items, vec![1, 2, 3]);
    assert!(matches!(page.next_page(), Advance::Exhausted));
    assert!(matches!(page.prev_page(), Advance::Exhausted));
    assert_eq!(page.initial_items, vec![1, 2, 3]);
    assert_eq!(page.items_ref(), &vec![1, 2, 3]);
}

#[test]
fn page_hands_each_cursor_out_once() {
    let mut page = Page::new(response(&[(SECOND, "next"), (BEFORE, "prev")], vec!['a'])).unwrap();
    match page.next_page() {
        Advance::Fetch(url) => assert_eq!(url, SECOND),
        other => panic!("unexpected: {:?}", other),
    }
    assert!(matches!(page.next_page(), Advance::Exhausted));
    match page.prev_page() {
        Advance::Fetch(url) => assert_eq!(url, BEFORE),
        other => panic!("unexpected: {:?}", other),
    }
    assert!(matches!(page.prev_page(), Advance::Exhausted));
}

#[test]
fn page_of_a_malformed_link_fails() {
    let r = Page::new(response(&[("no url", "next")], vec![1]));
    assert!(matches!(r, Err(Error::Url(_))));
}

#[test]
fn page_of_an_undecodable_body_fails() {
    let r = Page::<u8>::new(Response {
        link_headers: vec![],
        body: Body::Read { value: Err("bad".to_string()), api_error: None },
    });
    assert!(matches!(r, Err(Error::Serde(_))));
    let api = ApiError { error: None, error_description: Some("denied".to_string()) };
    let r = Page::<u8>::new(Response {
        link_headers: vec![],
        body: Body::Read { value: Err("bad".to_string()), api_error: Some(api) },
    });
    assert!(matches!(r, Err(Error::Api(_))));
}

#[test]
fn malformed_link_comes_before_the_body() {
    let r = Page::<u8>::new(Response {
        link_headers: vec!["<no url>; rel=\"prev\"".to_string()],
        body: Body::Read { value: Err("bad".to_string()), api_error: None },
    });
    assert!(matches!(r, Err(Error::Url(_))));
}

#[test]
fn receive_replaces_both_cursors() {
    let mut page = Page::new(response(&[(SECOND, "next"), (BEFORE, "prev")], vec![1])).unwrap();
    assert!(matches!(page.next_page(), Advance::Fetch(_)));
    let items = page.receive(Fetched::Answered(response(&[(THIRD, "next")], vec![2, 3]))).unwrap();
    assert_eq!(items, vec![2, 3]);
    assert_eq!(page.initial_items, vec![1]);
    assert!(matches!(page.prev_page(), Advance::Exhausted));
    match page.next_page() {
        Advance::Fetch(url) => assert_eq!(url, THIRD),
        other => panic!("unexpected: {:?}", other),
    }
}

#[test]
fn receive_sets_the_cursors_though_the_body_fails() {
    let mut page = Page::<u8>::new(response(&[(SECOND, "next")], vec![1])).unwrap();
    assert!(matches!(page.next_page(), Advance::Fetch(_)));
    let r = page.receive(Fetched::Answered(Response {
        link_headers: vec![format!("<{}>; rel=\"next\"", THIRD)],
        body: Body::Read { value: Err("bad".to_string()), api_error: None },
    }));
    assert!(matches!(r, Err(Error::Serde(_))));
    match page.next_page() {
        Advance::Fetch(url) => assert_eq!(url, THIRD),
        other => panic!("unexpected: {:?}", other),
    }
}

#[test]
fn receive_of_a_failed_request_changes_nothing() {
    let mut page = Page::new(response(&[(BEFORE, "prev")], vec![1])).unwrap();
    let r = page.receive(Fetched::Failed("timed out".to_string()));
    match r {
        Err(Error::Http(m)) => assert_eq!(m, "timed out"),
        other => panic!("unexpected: {:?}", other),
    }
    match page.prev_page() {
        Advance::Fetch(url) => assert_eq!(url, BEFORE),
        other => panic!("unexpected: {:?}", other),
    }
}

#[test]
fn receive_of_a_malformed_link_changes_nothing() {
    let mut page = Page::new(response(&[(BEFORE, "prev")], vec![1])).unwrap();
    let r = page.receive(Fetched::Answered(response(&[("::", "next")], vec![2])));
    assert!(matches!(r, Err(Error::Url(_))));
    match page.prev_page() {
        Advance::Fetch(url) => assert_eq!(url, BEFORE),
        other => panic!("unexpected: {:?}", other),
    }
}

#[test]
fn stream_over_two_pages() {
    let page = Page::new(response(&[(SECOND, "next")], vec!["a", "b"])).unwrap();
    let mut iter = page.items_iter();
    assert!(!iter.need_next_page());
    assert_eq!(item(iter.next()), "a");
    assert_eq!(item(iter.next()), "b");
    assert!(iter.need_next_page());
    assert_eq!(fetch(iter.next()), SECOND);
    assert_eq!(iter.fill_next_page(Fetched::Answered(response(&[], vec!["c"]))), Some(()));
    assert_eq!(item(iter.next()), "c");
    assert!(matches!(iter.next(), Step::Done));
    assert!(matches!(iter.next(), Step::Done));
}

#[test]
fn stream_over_an_empty_first_page() {
    let page = Page::new(response(&[(SECOND, "next")], Vec::<u32>::new())).unwrap();
    let mut iter = ItemsIter::new(page);
    assert_eq!(fetch(iter.next()), SECOND);
    assert_eq!(iter.fill_next_page(Fetched::Answered(response(&[], vec![10, 11]))), Some(()));
    assert_eq!(item(iter.next()), 10);
    assert_eq!(item(iter.next()), 11);
    assert!(matches!(iter.next(), Step::Done));
}

#[test]
fn stream_over_a_single_page() {
    let page = Page::new(response(&[], vec![1])).unwrap();
    let mut iter = page.items_iter();
    assert_eq!(item(iter.next()), 1);
    assert!(matches!(iter.next(), Step::Done));
    assert!(matches!(iter.next(), Step::Done));
    let page = Page::new(response(&[], Vec::<u8>::new())).unwrap();
    assert!(matches!(page.items_iter().next(), Step::Done));
}

#[test]
fn stream_goes_past_an_empty_page() {
    let page = Page::new(response(&[(SECOND, "next")], vec![1])).unwrap();
    let mut iter = page.items_iter();
    assert_eq!(item(iter.next()), 1);
    assert_eq!(fetch(iter.next()), SECOND);
    assert_eq!(iter.fill_next_page(Fetched::Answered(response(&[(THIRD, "next")], vec![]))), Some(()));
    assert_eq!(fetch(iter.next()), THIRD);
    assert_eq!(iter.fill_next_page(Fetched::Answered(response(&[], vec![2]))), Some(()));
    assert_eq!(item(iter.next()), 2);
    assert!(matches!(iter.next(), Step::Done));
}

#[test]
fn stream_ends_for_good_on_an_error() {
    let page = Page::new(response(&[(SECOND, "next")], vec![1])).unwrap();
    let mut iter = page.items_iter();
    assert_eq!(item(iter.next()), 1);
    assert_eq!(fetch(iter.next()), SECOND);
    let failed = Fetched::Answered(Response {
        link_headers: vec![format!("<{}>; rel=\"next\"", THIRD)],
        body: Body::Read { value: Err("bad".to_string()), api_error: None },
    });
    assert_eq!(iter.fill_next_page(failed), None);
    assert!(matches!(iter.next(), Step::Done));
    assert_eq!(iter.fill_next_page(Fetched::Answered(response(&[], vec![2]))), None);
    assert!(matches!(iter.next(), Step::Done));
}

#[test]
fn stream_ends_on_a_failed_request() {
    let page = Page::new(response(&[(SECOND, "next")], Vec::<u8>::new())).unwrap();
    let mut iter = page.items_iter();
    assert_eq!(fetch(iter.next()), SECOND);
    assert_eq!(iter.fill_next_page(Fetched::Failed("no route".to_string())), None);
    assert!(matches!(iter.next(), Step::Done));
}

#[test]
fn stream_that_is_not_fed_ends() {
    let page = Page::new(response(&[(SECOND, "next")], Vec::<u8>::new())).unwrap();
    let mut iter = page.items_iter();
    assert_eq!(fetch(iter.next()), SECOND);
    assert!(matches!(iter.next(), Step::Done));
    assert_eq!(iter.fill_next_page(Fetched::Answered(response(&[], vec![2]))), None);
}

#[test]
fn stream_takes_no_page_it_did_not_ask_for() {
    let page = Page::new(response(&[(SECOND, "next")], vec![1, 2])).unwrap();
    let mut iter = page.items_iter();
    assert_eq!(iter.fill_next_page(Fetched::Answered(response(&[], vec![9]))), None);
    assert_eq!(item(iter.next()), 1);
    assert_eq!(item(iter.next()), 2);
    assert_eq!(fetch(iter.next()), SECOND);
}

#[test]
fn stream_under_its_earlier_name() {
    let page = Page::new(response(&[], vec![4, 5])).unwrap();
    let mut iter = mammut::entities::pageiter::PageIter::new(page);
    assert_eq!(item(iter.next()), 4);
    assert_eq!(item(iter.next()), 5);
    assert!(matches!(iter.next(), Step::Done));
}
