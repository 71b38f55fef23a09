use vstd::prelude::*;

verus! {

/// Why `url` refused a text as an absolute URL. The value is carried through
/// unread.
#[verifier::external_type_specification]
#[verifier::external_body]
pub struct ExParseError(url::ParseError);

/// Error returned from the Mastodon API.
#[derive(Clone, Debug)]
pub struct ApiError {
    /// The type of error.
    pub error: Option<String>,
    /// The description of the error.
    pub error_description: Option<String>,
}

/// The errors met while using the Mastodon API.
#[derive(Debug)]
pub enum Error {
    /// Error from the Mastodon API. This typically means something went
    /// wrong with your authentication or data.
    Api(ApiError),
    /// Error deserialising to json. Typically represents a breaking change in
    /// the Mastodon API.
    /// The message of the decoder is held.
    Serde(String),
    /// Error encountered in the HTTP backend while requesting a route. The
    /// message of the backend is held.
    Http(String),
    /// An input or output error, by its message.
    Io(String),
    /// A cursor of a `Link` header is no absolute URL.
    Url(url::ParseError),
    /// Missing Client Id.
    ClientIdRequired,
    /// Missing Client Secret.
    ClientSecretRequired,
    /// Missing Access Token.
    AccessTokenRequired,
    /// Generic client error, by its status code.
    Client(u16),
    /// Generic server error, by its status code.
    Server(u16),
}

/// The reason phrase that HTTP gives the status code `code`; `None` for a
/// number that is no status code, and for a status code without a phrase.
pub uninterp spec fn canonical_reason(code: u16) -> Option<Seq<char>>;

/// Calls `StatusCode::from_u16` and, on the status code that it gives,
/// `StatusCode::canonical_reason`, both of the `http` crate as `reqwest` hands
/// it on.
///
/// Nothing is proved of the two. The contract only gives the phrase a name:
/// what comes back is `canonical_reason` of the number.
#[verifier::external_body]
fn reason_phrase(code: u16) -> (reason: Option<String>)
    ensures
        match reason {
            Some(phrase) => canonical_reason(code) == Some(phrase@),
            None => canonical_reason(code) is None,
        },
{
    match reqwest::StatusCode::from_u16(code) {
        Ok(status) => status.canonical_reason().map(String::from),
        Err(_) => None,
    }
}

/// Writes out why `url` refused a text, with the `Display` of
/// `url::ParseError`. Nothing is stated of the message.
#[verifier::external_body]
fn url_error_message(error: &url::ParseError) -> (message: String) {
    format!("{}", error)
}

/// The text of an optional string, or `default` where there is none.
pub open spec fn text_or(text: Option<String>, default: Seq<char>) -> Seq<char> {
    match text {
        Some(text) => text@,
        None => default,
    }
}

/// The description of a status: its reason phrase, or `Unknown Status code`
/// where it has none.
pub fn status_description(reason: Option<String>) -> (description: String)
    ensures
        description@ == text_or(reason, "Unknown Status code"@),
{
    match reason {
        Some(phrase) => phrase,
        None => "Unknown Status code".to_owned(),
    }
}

impl ApiError {
    /// What the API said: the description of the error, else its type, else
    /// `Unknown API Error`.
    pub open spec fn described(self) -> Seq<char> {
        match self.error_description {
            Some(description) => description@,
            None => text_or(self.error, "Unknown API Error"@),
        }
    }

    /// What the API said: the description of the error, else its type, else
    /// `Unknown API Error`.
    pub fn description(&self) -> (description: String)
        ensures
            description@ == self.described(),
    {
        match &self.error_description {
            Some(description) => description.clone(),
            None => match &self.error {
                Some(error) => error.clone(),
                None => "Unknown API Error".to_owned(),
            },
        }
    }
}

impl Error {
    /// Whether `text` describes the error.
    ///
    /// An error of the API is described by what the API said, an error that
    /// holds a message by that message, a status by its reason phrase, and a
    /// missing credential by its name. Of a URL that did not parse the
    /// message of the parser is given, whatever it is.
    pub open spec fn described_by(self, text: Seq<char>) -> bool {
        match self {
            Error::Api(error) => text == error.described(),
            Error::Serde(message) => text == message@,
            Error::Http(message) => text == message@,
            Error::Io(message) => text == message@,
            Error::Url(_) => true,
            Error::ClientIdRequired => text == "ClientIdRequired"@,
            Error::ClientSecretRequired => text == "ClientSecretRequired"@,
            Error::AccessTokenRequired => text == "AccessTokenRequired"@,
            Error::Client(code) => text == match canonical_reason(code) {
                Some(phrase) => phrase,
                None => "Unknown Status code"@,
            },
            Error::Server(code) => text == match canonical_reason(code) {
                Some(phrase) => phrase,
                None => "Unknown Status code"@,
            },
        }
    }

    /// A short description of the error.
    pub fn description(&self) -> (description: String)
        ensures
            self.described_by(description@),
    {
        match self {
            Error::Api(error) => error.description(),
            Error::Serde(message) => message.clone(),
            Error::Http(message) => message.clone(),
            Error::Io(message) => message.clone(),
            Error::Url(error) => url_error_message(error),
            Error::ClientIdRequired => "ClientIdRequired".to_owned(),
            Error::ClientSecretRequired => "ClientSecretRequired".to_owned(),
            Error::AccessTokenRequired => "AccessTokenRequired".to_owned(),
            Error::Client(code) => status_description(reason_phrase(*code)),
            Error::Server(code) => status_description(reason_phrase(*code)),
        }
    }

    /// The error that a response with the status `code` stands for: a client
    /// error for 400 to 499, a server error for 500 to 599, and none for any
    /// other status.
    pub open spec fn of_status(code: u16) -> Option<Error> {
        if 400 <= code < 500 {
            Some(Error::Client(code))
        } else if 500 <= code < 600 {
            Some(Error::Server(code))
        } else {
            None
        }
    }

    /// Tells a response that failed by its status: an error for a client or
    /// server error status, `Ok` for every other.
    pub fn check_status(code: u16) -> (r: Result<(), Error>)
        ensures
            match r {
                Ok(_) => Self::of_status(code) is None,
                Err(e) => Self::of_status(code) == Some(e),
            },
    {
        if 400 <= code && code < 500 {
            Err(Error::Client(code))
        } else if 500 <= code && code < 600 {
            Err(Error::Server(code))
        } else {
            Ok(())
        }
    }
}

} // verus!
