//! The errors of fetching and parsing a feed.

use feed_rs::parser::ParseFeedError;
use ureq::Error as RequestError;
use vstd::prelude::*;
use vstd::std_specs::convert::FromSpecImpl;

verus! {

/// The error of the parser of the `feed-rs` crate.
#[verifier::external_type_specification]
#[verifier::external_body]
pub struct ExParseFeedError(ParseFeedError);

/// The error of a request of the `ureq` crate.
#[verifier::external_type_specification]
#[verifier::external_body]
pub struct ExRequestError(RequestError);

/// `std::io::Error`, the error of reading a file.
#[verifier::external_type_specification]
#[verifier::external_body]
pub struct ExIoError(std::io::Error);

/// The `Display` text of a `feed_rs::parser::ParseFeedError`.
#[verifier::external_body]
fn parse_error_text(error: &ParseFeedError) -> String {
    error.to_string()
}

/// The `Display` text of a `ureq::Error`.
#[verifier::external_body]
fn request_error_text(error: &RequestError) -> String {
    error.to_string()
}

/// The `Display` text of a `std::io::Error`.
#[verifier::external_body]
fn io_error_text(error: &std::io::Error) -> String {
    error.to_string()
}

/// A result returned by the feed client.
pub type FeedResult<T> = Result<T, FeedError>;

/// Describes why a feed could not be had.
#[derive(Debug, PartialEq, Eq)]
pub enum FeedError {
    /// The bytes are no feed that the parser understands.
    Parse(String),
    /// The request failed, or the server refused it.
    Http(String),
    /// The file could not be read.
    Io(String),
}

/// A [`FeedError`] as contracts see it.
pub enum FeedErrorView {
    Parse(Seq<char>),
    Http(Seq<char>),
    Io(Seq<char>),
}

impl View for FeedError {
    type V = FeedErrorView;

    open spec fn view(&self) -> FeedErrorView {
        match self {
            FeedError::Parse(message) => FeedErrorView::Parse(message@),
            FeedError::Http(message) => FeedErrorView::Http(message@),
            FeedError::Io(message) => FeedErrorView::Io(message@),
        }
    }
}

/// The text that an error shows to the user.
pub open spec fn error_text(error: FeedErrorView) -> Seq<char> {
    match error {
        FeedErrorView::Parse(message) => "Parse error: "@ + message,
        FeedErrorView::Http(message) => "HTTP request failed: "@ + message,
        FeedErrorView::Io(message) => "I/O error: "@ + message,
    }
}

impl Clone for FeedError {
    fn clone(&self) -> (copy: FeedError)
        ensures
            copy@ == self@,
    {
        match self {
            FeedError::Parse(message) => FeedError::Parse(message.clone()),
            FeedError::Http(message) => FeedError::Http(message.clone()),
            FeedError::Io(message) => FeedError::Io(message.clone()),
        }
    }
}

impl FeedError {
    /// The text that the error shows to the user: what failed, then the
    /// message of the failure.
    pub fn to_string(&self) -> (text: String)
        ensures
            text@ == error_text(self@),
    {
        match self {
            FeedError::Parse(message) => {
                let mut text = String::from_str("Parse error: ");
                text.append(message.as_str());
                text
            },
            FeedError::Http(message) => {
                let mut text = String::from_str("HTTP request failed: ");
                text.append(message.as_str());
                text
            },
            FeedError::Io(message) => {
                let mut text = String::from_str("I/O error: ");
                text.append(message.as_str());
                text
            },
        }
    }
}

impl From<ParseFeedError> for FeedError {
    /// A parse error, with the text of the parser's error as its message.
    fn from(error: ParseFeedError) -> (converted: FeedError)
        ensures
            converted is Parse,
    {
        FeedError::Parse(parse_error_text(&error))
    }
}

impl FromSpecImpl<ParseFeedError> for FeedError {
    open spec fn obeys_from_spec() -> bool {
        false
    }

    open spec fn from_spec(error: ParseFeedError) -> FeedError {
        arbitrary()
    }
}

impl From<RequestError> for FeedError {
    /// A request error, with the text of the client's error as its message.
    fn from(error: RequestError) -> (converted: FeedError)
        ensures
            converted is Http,
    {
        FeedError::Http(request_error_text(&error))
    }
}

impl FromSpecImpl<RequestError> for FeedError {
    open spec fn obeys_from_spec() -> bool {
        false
    }

    open spec fn from_spec(error: RequestError) -> FeedError {
        arbitrary()
    }
}

impl From<std::io::Error> for FeedError {
    /// An error of reading, with the text of the system's error as its
    /// message.
    fn from(error: std::io::Error) -> (converted: FeedError)
        ensures
            converted is Io,
    {
        FeedError::Io(io_error_text(&error))
    }
}

impl FromSpecImpl<std::io::Error> for FeedError {
    open spec fn obeys_from_spec() -> bool {
        false
    }

    open spec fn from_spec(error: std::io::Error) -> FeedError {
        arbitrary()
    }
}

} // verus!
