use mammut::cursor::{get_links, select_links, ParsedLink};
use mammut::errors::Error;
use mammut::link::parse_link_header;

const NEXT: &str = "https://example.com/api/v1/accounts/1234/statuses?max_id=100";
const PREV: &str = "https://example.com/api/v1/accounts/1234/statuses?min_id=101";

fn header(parts: &[(&str, &str)]) -> String {
    let mut out = String::new();
    for (i, (url, rel)) in parts.iter().enumerate() {
        if i > 0 {
            out.push_str(", ");
        }
        out.push_str(&format!("<{}>; rel=\"{}\"", url, rel));
    }
    out
}

#[test]
fn no_link_header_gives_no_cursors() {
    let links = get_links(&vec![]).unwrap();
    assert_eq!(links, (None, None));
}

#[test]
fn next_and_prev_of_one_header() {
    let value = format!("<{}>; rel=\"next\", <{}>; rel=\"prev\"", NEXT, PREV);
    let (prev, next) = get_links(&vec![value]).unwrap();
    assert_eq!(prev.as_deref(), Some(PREV));
    assert_eq!(next.as_deref(), Some(NEXT));
}

#[test]
fn order_of_the_links_does_not_matter() {
    let value = header(&[(PREV, "prev"), (NEXT, "next")]);
    let (prev, next) = get_links(&vec![value]).unwrap();
    assert_eq!(prev.as_deref(), Some(PREV));
    assert_eq!(next.as_deref(), Some(NEXT));
}

#[test]
fn only_next() {
    let (prev, next) = get_links(&vec![header(&[(NEXT, "next")])]).unwrap();
    assert_eq!(prev, None);
    assert_eq!(next.as_deref(), Some(NEXT));
}

#[test]
fn links_of_two_headers() {
    let headers = vec![header(&[(NEXT, "next")]), header(&[(PREV, "prev")])];
    let (prev, next) = get_links(&headers).unwrap();
    assert_eq!(prev.as_deref(), Some(PREV));
    assert_eq!(next.as_deref(), Some(NEXT));
}

#[test]
fn malformed_url_of_a_followed_link_fails() {
    let r = get_links(&vec![header(&[("not a url", "next")])]);
    assert!(matches!(r, Err(Error::Url(_))));
    let r = get_links(&vec![header(&[(NEXT, "next"), ("/relative/path", "prev")])]);
    assert!(matches!(r, Err(Error::Url(url::ParseError::RelativeUrlWithoutBase))));
}

#[test]
fn malformed_url_of_another_link_is_passed_over() {
    let value = header(&[("not a url", "first"), (NEXT, "next")]);
    let (prev, next) = get_links(&vec![value]).unwrap();
    assert_eq!(prev, None);
    assert_eq!(next.as_deref(), Some(NEXT));
}

#[test]
fn relation_types_are_matched_letter_for_letter() {
    let value = header(&[(NEXT, "Next"), (PREV, "PREV")]);
    assert_eq!(get_links(&vec![value]).unwrap(), (None, None));
    let value = header(&[(NEXT, "nextpage"), (PREV, "previous")]);
    assert_eq!(get_links(&vec![value]).unwrap(), (None, None));
}

#[test]
fn url_is_handed_out_as_the_parser_writes_it() {
    let (_, next) = get_links(&vec![header(&[("HTTPS://Example.COM", "next")])]).unwrap();
    assert_eq!(next.as_deref(), Some("https://example.com/"));
}

#[test]
fn the_last_link_of_a_relation_decides() {
    let value = header(&[(PREV, "next"), (NEXT, "next")]);
    let (prev, next) = get_links(&vec![value]).unwrap();
    assert_eq!(prev, None);
    assert_eq!(next.as_deref(), Some(NEXT));
}

#[test]
fn parse_reads_targets_and_relations() {
    let links = parse_link_header("<a,b;c>; rel=\"next\" , < x > ;title=\"p, q; r\"; rel=prev");
    assert_eq!(links.len(), 2);
    assert_eq!(links[0].link, "a,b;c");
    assert!(links[0].next && !links[0].prev);
    assert_eq!(links[1].link, "x");
    assert!(!links[1].next && links[1].prev);
}

#[test]
fn parse_reads_several_relation_types() {
    let links = parse_link_header("<u>; rel=\"first prev next\"");
    assert_eq!(links.len(), 1);
    assert!(links[0].next && links[0].prev);
    let links = parse_link_header("<u>; rel=\"last\"; rel=\"next\"");
    assert_eq!(links.len(), 1);
    assert!(!links[0].next && !links[0].prev);
}

#[test]
fn parse_passes_over_what_is_no_link_value() {
    assert_eq!(parse_link_header("").len(), 0);
    assert_eq!(parse_link_header("  ,, ").len(), 0);
    assert_eq!(parse_link_header("rel=\"next\"").len(), 0);
    assert_eq!(parse_link_header("<unterminated; rel=\"next\"").len(), 0);
    let links = parse_link_header("garbage, <u>; rel=\"next\"; unknown; other=1");
    assert_eq!(links.len(), 1);
    assert_eq!(links[0].link, "u");
    assert!(links[0].next);
    let links = parse_link_header("<u>");
    assert_eq!(links.len(), 1);
    assert!(!links[0].next && !links[0].prev);
}

#[test]
fn parse_counts_characters_not_bytes() {
    let links = parse_link_header("<https://example.com/\u{e9}t\u{e9}>; rel=\"next\"");
    assert_eq!(links.len(), 1);
    assert_eq!(links[0].link, "https://example.com/\u{e9}t\u{e9}");
    assert!(links[0].next);
}

#[test]
fn select_takes_the_first_error() {
    let links = vec![
        ParsedLink { next: false, prev: false, url: Err(url::ParseError::EmptyHost) },
        ParsedLink { next: true, prev: false, url: Ok(NEXT.to_string()) },
        ParsedLink { next: false, prev: true, url: Err(url::ParseError::InvalidPort) },
        ParsedLink { next: true, prev: false, url: Err(url::ParseError::Overflow) },
    ];
    assert!(matches!(select_links(&links), Err(Error::Url(url::ParseError::InvalidPort))));
}

#[test]
fn select_sets_both_cursors_of_one_link() {
    let links = vec![ParsedLink { next: true, prev: true, url: Ok(NEXT.to_string()) }];
    let (prev, next) = select_links(&links).unwrap();
    assert_eq!(prev.as_deref(), Some(NEXT));
    assert_eq!(next.as_deref(), Some(NEXT));
}
