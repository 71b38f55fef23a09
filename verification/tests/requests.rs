use mammut::apps::{AppBuilder, Scopes};
use mammut::client::{Data, Mastodon};
use mammut::entities::account::{CredientialsBuilder, FormField};
use mammut::errors::{status_description, ApiError, Error};
use mammut::registration::{OAuth, Registration};
use mammut::status_builder::{StatusBuilder, Visibility};
use mammut::text::{chars_of, decimal_string, join};
use mammut::StatusesRequest;

fn client() -> Mastodon {
    Mastodon::from_data(Data {
        base: "https://example.social".to_string(),
        client_id: "id".to_string(),
        client_secret: "secret".to_string(),
        redirect: "urn:ietf:wg:oauth:2.0:oob".to_string(),
        token: "token".to_string(),
    })
}

fn app(scopes: Scopes) -> AppBuilder<'static> {
    AppBuilder { client_name: "test", redirect_uris: "urn:ietf:wg:oauth:2.0:oob", scopes, website: None }
}

fn oauth() -> OAuth {
    OAuth {
        client_id: "abc".to_string(),
        client_secret: "xyz".to_string(),
        redirect_uri: "urn:ietf:wg:oauth:2.0:oob".to_string(),
    }
}

#[test]
fn querystring_of_no_option_is_empty() {
    assert_eq!(StatusesRequest::new().to_querystring(), "");
    assert_eq!(StatusesRequest::default().to_querystring(), "");
}

#[test]
fn querystring_of_some_options() {
    let request = StatusesRequest::new().only_media().pinned().since_id("foo");
    assert_eq!(&request.to_querystring()[..], "?only_media=1&pinned=1&since_id=foo");
}

#[test]
fn querystring_of_all_options() {
    let request = StatusesRequest::new()
        .limit(20)
        .since_id("s")
        .max_id("m")
        .pinned()
        .exclude_replies()
        .only_media();
    assert_eq!(
        request.to_querystring(),
        "?only_media=1&exclude_replies=1&pinned=1&max_id=m&since_id=s&limit=20"
    );
}

#[test]
fn querystring_of_one_option() {
    assert_eq!(StatusesRequest::new().limit(0).to_querystring(), "?limit=0");
    assert_eq!(StatusesRequest::new().exclude_replies().to_querystring(), "?exclude_replies=1");
    assert_eq!(StatusesRequest::new().max_id("1").max_id("2").to_querystring(), "?max_id=2");
}

#[test]
fn decimal_numerals() {
    assert_eq!(decimal_string(0), "0");
    assert_eq!(decimal_string(9), "9");
    assert_eq!(decimal_string(10), "10");
    assert_eq!(decimal_string(1234567890), "1234567890");
    assert_eq!(decimal_string(u64::MAX), "18446744073709551615");
}

#[test]
fn join_puts_the_separator_between() {
    assert_eq!(join(&vec![], "&"), "");
    assert_eq!(join(&vec!["a".to_string()], "&"), "a");
    assert_eq!(join(&vec!["a".to_string(), "".to_string(), "c".to_string()], ", "), "a, , c");
}

#[test]
fn chars_of_a_text() {
    assert_eq!(chars_of(""), Vec::<char>::new());
    assert_eq!(chars_of("a\u{e9}\u{1f600}"), vec!['a', '\u{e9}', '\u{1f600}']);
}

#[test]
fn status_builder_holds_the_text_only() {
    let status = StatusBuilder::new("Hello World!".into());
    assert_eq!(status.status, "Hello World!");
    assert!(status.in_reply_to_id.is_none());
    assert!(status.media_ids.is_none());
    assert!(status.sensitive.is_none());
    assert!(status.spoiler_text.is_none());
    assert!(status.visibility.is_none());
    assert_eq!(StatusBuilder::default().status, "");
    assert_eq!(Visibility::default(), Visibility::Public);
}

#[test]
fn scopes_in_a_query() {
    assert_eq!(Scopes::All.to_string(), "read%20write%20follow");
    assert_eq!(Scopes::Follow.to_string(), "follow");
    assert_eq!(Scopes::Read.to_string(), "read");
    assert_eq!(Scopes::ReadFollow.to_string(), "read%20follow");
    assert_eq!(Scopes::ReadWrite.to_string(), "read%20write");
    assert_eq!(Scopes::Write.to_string(), "write");
    assert_eq!(Scopes::WriteFollow.as_str(), "write%20follow");
    assert_eq!(Scopes::default(), Scopes::Read);
}

#[test]
fn description_of_an_api_error() {
    let both = ApiError { error: Some("e".to_string()), error_description: Some("d".to_string()) };
    assert_eq!(Error::Api(both).description(), "d");
    let kind = ApiError { error: Some("e".to_string()), error_description: None };
    assert_eq!(Error::Api(kind).description(), "e");
    let none = ApiError { error: None, error_description: None };
    assert_eq!(none.description(), "Unknown API Error");
}

#[test]
fn description_of_the_other_errors() {
    assert_eq!(Error::Serde("s".to_string()).description(), "s");
    assert_eq!(Error::Http("h".to_string()).description(), "h");
    assert_eq!(Error::Io("i".to_string()).description(), "i");
    assert_eq!(Error::Url(url::ParseError::EmptyHost).description(), "empty host");
    assert_eq!(Error::ClientIdRequired.description(), "ClientIdRequired");
    assert_eq!(Error::ClientSecretRequired.description(), "ClientSecretRequired");
    assert_eq!(Error::AccessTokenRequired.description(), "AccessTokenRequired");
}

#[test]
fn description_of_a_status() {
    assert_eq!(Error::Client(404).description(), "Not Found");
    assert_eq!(Error::Server(503).description(), "Service Unavailable");
    assert_eq!(Error::Client(499).description(), "Unknown Status code");
    assert_eq!(Error::Server(7).description(), "Unknown Status code");
    assert_eq!(status_description(None), "Unknown Status code");
    assert_eq!(status_description(Some("I'm a teapot".to_string())), "I'm a teapot");
}

#[test]
fn status_of_a_response() {
    assert!(matches!(Error::check_status(200), Ok(())));
    assert!(matches!(Error::check_status(399), Ok(())));
    assert!(matches!(Error::check_status(400), Err(Error::Client(400))));
    assert!(matches!(Error::check_status(499), Err(Error::Client(499))));
    assert!(matches!(Error::check_status(500), Err(Error::Server(500))));
    assert!(matches!(Error::check_status(599), Err(Error::Server(599))));
    assert!(matches!(Error::check_status(600), Ok(())));
}

#[test]
fn routes_of_the_client() {
    let client = client();
    assert_eq!(client.route("/api/v1/instance"), "https://example.social/api/v1/instance");
    assert_eq!(client.new_status(), "https://example.social/api/v1/statuses");
    assert_eq!(
        client.update_credentials(),
        "https://example.social/api/v1/accounts/update_credentials"
    );
    assert_eq!(client.get_public_timeline(false), "https://example.social/api/v1/timelines/public");
    assert_eq!(
        client.get_public_timeline(true),
        "https://example.social/api/v1/timelines/public?local=1"
    );
    assert_eq!(
        client.get_tagged_timeline("coffee", true),
        "https://example.social/api/v1/timelines/tag/coffee?local=1"
    );
    assert_eq!(
        client.get_tagged_timeline("coffee", false),
        "https://example.social/api/v1/timelines/tag/coffee"
    );
}

#[test]
fn route_of_the_statuses() {
    let client = client();
    assert_eq!(client.statuses("42", None), "https://example.social/api/v1/accounts/42/statuses");
    let request = StatusesRequest::new().only_media().limit(5);
    assert_eq!(
        client.statuses("42", Some(request)),
        "https://example.social/api/v1/accounts/42/statuses?only_media=1&limit=5"
    );
}

#[test]
fn route_of_the_relationships() {
    let client = client();
    let one = vec!["1".to_string()];
    assert_eq!(
        client.relationships(&one),
        "https://example.social/api/v1/accounts/relationships?id=1"
    );
    let three = vec!["1".to_string(), "2".to_string(), "3".to_string()];
    assert_eq!(
        client.relationships(&three),
        "https://example.social/api/v1/accounts/relationships?id[]=1&id[]=2&id[]=3"
    );
    assert_eq!(client.relationships(&vec![]), "https://example.social/api/v1/accounts/relationships");
}

#[test]
fn route_of_a_search() {
    let client = client();
    assert_eq!(
        client.search_accounts("bob", None, false),
        "https://example.social/api/v1/accounts/search?q=bob&limit=40&following=false"
    );
    assert_eq!(
        client.search_accounts("bob", Some(7), true),
        "https://example.social/api/v1/accounts/search?q=bob&limit=7&following=true"
    );
}

#[test]
fn registration_needs_the_client_id() {
    let registration = Registration::new("https://example.social".to_string());
    assert!(matches!(registration.is_registered(), Err(Error::ClientIdRequired)));
    assert!(matches!(registration.authorise(), Err(Error::ClientIdRequired)));
    assert!(matches!(registration.create_access_token("code"), Err(Error::ClientIdRequired)));
    assert!(matches!(registration.into_mastodon("t".to_string()), Err(Error::ClientIdRequired)));
}

#[test]
fn registration_step_by_step() {
    let mut registration = Registration::new("https://example.social".to_string());
    assert_eq!(registration.register(&app(Scopes::ReadWrite)), "https://example.social/api/v1/apps");
    registration.registered(oauth());
    assert!(registration.is_registered().is_ok());
    assert_eq!(
        registration.authorise().unwrap(),
        "https://example.social/oauth/authorize?client_id=abc&redirect_uri=urn:ietf:wg:oauth:2.0:oob&scope=read%20write&response_type=code"
    );
    assert_eq!(
        registration.create_access_token("c0de").unwrap(),
        "https://example.social/oauth/token?client_id=abc&client_secret=xyz&code=c0de&grant_type=authorization_code&redirect_uri=urn:ietf:wg:oauth:2.0:oob"
    );
    let client = registration.into_mastodon("t0ken".to_string()).unwrap();
    assert_eq!(client.data.base, "https://example.social");
    assert_eq!(client.data.client_id, "abc");
    assert_eq!(client.data.client_secret, "xyz");
    assert_eq!(client.data.redirect, "urn:ietf:wg:oauth:2.0:oob");
    assert_eq!(client.data.token, "t0ken");
}

#[test]
fn registration_asks_for_read_unless_told() {
    let mut registration = Registration::new("https://example.social".to_string());
    registration.registered(oauth());
    assert!(registration.authorise().unwrap().contains("&scope=read&"));
}

#[test]
fn form_of_the_credentials() {
    let changes = CredientialsBuilder {
        display_name: Some("Bob"),
        note: None,
        avatar: Some("/tmp/avatar.png"),
        header: Some("/tmp/header.png"),
    };
    let form = changes.into_form();
    assert_eq!(form.len(), 3);
    assert!(matches!(&form[0], FormField::Text { name, value } if name == "display_name" && value == "Bob"));
    assert!(matches!(&form[1], FormField::File { name, path } if name == "avatar" && path == "/tmp/avatar.png"));
    assert!(matches!(&form[2], FormField::File { name, path } if name == "header" && path == "/tmp/header.png"));
    let nothing = CredientialsBuilder { display_name: None, note: None, avatar: None, header: None };
    assert_eq!(nothing.into_form().len(), 0);
    let note = CredientialsBuilder { display_name: None, note: Some("hi"), avatar: None, header: None };
    let form = note.into_form();
    assert_eq!(form.len(), 1);
    assert!(matches!(&form[0], FormField::Text { name, value } if name == "note" && value == "hi"));
}
