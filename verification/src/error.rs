//! What can go wrong on the HTTP transport, and how it reads.

use http::StatusCode;
use vstd::prelude::*;
use vstd::std_specs::convert::FromSpec;

use crate::json;
use crate::text;
use crate::urls;
use crate::wire;

verus! {

/// `std::io::Error`.
#[verifier::external_type_specification]
#[verifier::external_body]
pub struct ExIoError(std::io::Error);

/// Errors that can occur during HTTP transport operations.
#[derive(Debug)]
pub enum HttpTransportError {
    /// A response had a status that is no success.
    HttpRequestFailed { status: StatusCode, body: String },
    /// A Server-Sent Events connection failed.
    SseConnectionFailed(String),
    /// A message is JSON but no JSON-RPC message.
    JsonRpcValidationFailed(String),
    /// A response had content of an unexpected type.
    UnexpectedContentType { expected: String, actual: String },
    /// A message could not be handed to the channel.
    ChannelSendFailed,
    /// An I/O operation failed.
    IoError(std::io::Error),
    /// The HTTP client failed; the text says how.
    HttpClientError(String),
    /// A message is not JSON.
    JsonParseError(serde_json::Error),
    /// A text is no URL.
    UrlParseError(url::ParseError),
}

/// `Display` of `std::io::Error`. What it prints can depend on the operating
/// system and its language, so nothing is said of it.
#[verifier::external_body]
fn io_error_text(error: &std::io::Error) -> (r: String) {
    error.to_string()
}

impl HttpTransportError {
    /// How the error reads when the error that it wraps, if any, reads
    /// `detail`.
    pub open spec fn rendered(self, detail: Seq<char>) -> Seq<char> {
        match self {
            HttpTransportError::HttpRequestFailed { status, body } =>
                "HTTP request failed with status "@ + wire::status_line(wire::status_number(status))
                    + ": "@ + body@,
            HttpTransportError::SseConnectionFailed(t) =>
                "Server-Sent Events connection failed: "@ + t@,
            HttpTransportError::JsonRpcValidationFailed(t) => "JSON-RPC validation failed: "@ + t@,
            HttpTransportError::UnexpectedContentType { expected, actual } =>
                "Unexpected content type: expected "@ + expected@ + ", got "@ + actual@,
            HttpTransportError::ChannelSendFailed => "Failed to send message through channel"@,
            HttpTransportError::IoError(_) => "I/O error: "@ + detail,
            HttpTransportError::HttpClientError(t) => "HTTP client error: "@ + t@,
            HttpTransportError::JsonParseError(_) => "JSON parsing error: "@ + detail,
            HttpTransportError::UrlParseError(_) => "URL parsing error: "@ + detail,
        }
    }

    /// The error comes down to an I/O error.
    pub open spec fn wraps_io(self) -> bool {
        match self {
            HttpTransportError::IoError(_) => true,
            HttpTransportError::JsonParseError(e) => json::json_error_is_io(e),
            _ => false,
        }
    }

    /// Whether the error comes down to an I/O error, so that its text can
    /// depend on the operating system.
    pub fn is_io(&self) -> (r: bool)
        ensures
            r == self.wraps_io(),
    {
        match self {
            HttpTransportError::IoError(_) => true,
            HttpTransportError::JsonParseError(e) => json::error_is_io(e),
            _ => false,
        }
    }

    /// The text of the error, given the text of the error that it wraps.
    pub fn render(&self, detail: &str) -> (r: String)
        ensures
            r@ == self.rendered(detail@),
    {
        match self {
            HttpTransportError::HttpRequestFailed { status, body } => {
                let number = wire::status_text(status);
                text::joined("HTTP request failed with status ", &number).concat(": ").concat(body)
            },
            HttpTransportError::SseConnectionFailed(t) => text::joined(
                "Server-Sent Events connection failed: ",
                t,
            ),
            HttpTransportError::JsonRpcValidationFailed(t) => text::joined(
                "JSON-RPC validation failed: ",
                t,
            ),
            HttpTransportError::UnexpectedContentType { expected, actual } => {
                text::joined("Unexpected content type: expected ", expected).concat(", got ").concat(
                    actual,
                )
            },
            HttpTransportError::ChannelSendFailed =>
                "Failed to send message through channel".to_string(),
            HttpTransportError::IoError(_) => text::joined("I/O error: ", detail),
            HttpTransportError::HttpClientError(t) => text::joined("HTTP client error: ", t),
            HttpTransportError::JsonParseError(_) => text::joined("JSON parsing error: ", detail),
            HttpTransportError::UrlParseError(_) => text::joined("URL parsing error: ", detail),
        }
    }

    /// The text of the error. Where the error comes down to an I/O error, it is
    /// not said how that one reads.
    pub fn message(&self) -> (r: String)
        ensures
            if self.wraps_io() {
                exists|d: Seq<char>| r@ == #[trigger] self.rendered(d)
            } else {
                match self {
                    HttpTransportError::JsonParseError(e) => r@ == self.rendered(
                        json::json_error_text(*e),
                    ),
                    HttpTransportError::UrlParseError(e) => r@ == self.rendered(
                        urls::url_error_text(*e),
                    ),
                    _ => r@ == self.rendered(Seq::empty()),
                }
            },
    {
        match self {
            HttpTransportError::IoError(e) => {
                let detail = io_error_text(e);
                self.render(&detail)
            },
            HttpTransportError::JsonParseError(e) => {
                let detail = json::error_text(e);
                self.render(&detail)
            },
            HttpTransportError::UrlParseError(e) => {
                let detail = urls::error_text(e);
                self.render(&detail)
            },
            _ => {
                let detail = String::new();
                self.render(&detail)
            },
        }
    }
}

impl From<serde_json::Error> for HttpTransportError {
    fn from(error: serde_json::Error) -> (r: Self) {
        HttpTransportError::JsonParseError(error)
    }
}

impl vstd::std_specs::convert::FromSpecImpl<serde_json::Error> for HttpTransportError {
    open spec fn obeys_from_spec() -> bool {
        true
    }

    open spec fn from_spec(error: serde_json::Error) -> Self {
        HttpTransportError::JsonParseError(error)
    }
}

impl From<url::ParseError> for HttpTransportError {
    fn from(error: url::ParseError) -> (r: Self) {
        HttpTransportError::UrlParseError(error)
    }
}

impl vstd::std_specs::convert::FromSpecImpl<url::ParseError> for HttpTransportError {
    open spec fn obeys_from_spec() -> bool {
        true
    }

    open spec fn from_spec(error: url::ParseError) -> Self {
        HttpTransportError::UrlParseError(error)
    }
}

impl From<std::io::Error> for HttpTransportError {
    fn from(error: std::io::Error) -> (r: Self) {
        HttpTransportError::IoError(error)
    }
}

impl vstd::std_specs::convert::FromSpecImpl<std::io::Error> for HttpTransportError {
    open spec fn obeys_from_spec() -> bool {
        true
    }

    open spec fn from_spec(error: std::io::Error) -> Self {
        HttpTransportError::IoError(error)
    }
}

/// An error reads as a fixed heading and, whole and in order, what it holds.
pub proof fn message_carries_what_the_error_holds(
    status: StatusCode,
    a: String,
    b: String,
    detail: Seq<char>,
)
    ensures
        (HttpTransportError::HttpRequestFailed { status, body: a }).rendered(detail)
            == "HTTP request failed with status "@ + wire::status_line(wire::status_number(status))
            + ": "@ + a@,
        HttpTransportError::SseConnectionFailed(a).rendered(detail)
            == "Server-Sent Events connection failed: "@ + a@,
        HttpTransportError::JsonRpcValidationFailed(a).rendered(detail)
            == "JSON-RPC validation failed: "@ + a@,
        (HttpTransportError::UnexpectedContentType { expected: a, actual: b }).rendered(detail)
            == "Unexpected content type: expected "@ + a@ + ", got "@ + b@,
        HttpTransportError::ChannelSendFailed.rendered(detail)
            == "Failed to send message through channel"@,
        HttpTransportError::HttpClientError(a).rendered(detail) == "HTTP client error: "@ + a@,
{
}

/// An error that wraps another reads as a fixed heading and the text of the
/// other one.
pub proof fn message_carries_the_wrapped_error(
    io: std::io::Error,
    json: serde_json::Error,
    url: url::ParseError,
    detail: Seq<char>,
)
    ensures
        HttpTransportError::IoError(io).rendered(detail) == "I/O error: "@ + detail,
        HttpTransportError::JsonParseError(json).rendered(detail) == "JSON parsing error: "@
            + detail,
        HttpTransportError::UrlParseError(url).rendered(detail) == "URL parsing error: "@ + detail,
        HttpTransportError::IoError(io).wraps_io(),
        HttpTransportError::JsonParseError(json).wraps_io() <==> json::json_error_is_io(json),
        !HttpTransportError::UrlParseError(url).wraps_io(),
{
}

/// An error of another kind is wrapped as it is.
pub proof fn other_errors_are_wrapped_as_they_are(
    io: std::io::Error,
    json: serde_json::Error,
    url: url::ParseError,
)
    ensures
        <HttpTransportError as FromSpec<std::io::Error>>::from_spec(io)
            == HttpTransportError::IoError(io),
        <HttpTransportError as FromSpec<serde_json::Error>>::from_spec(json)
            == HttpTransportError::JsonParseError(json),
        <HttpTransportError as FromSpec<url::ParseError>>::from_spec(url)
            == HttpTransportError::UrlParseError(url),
{
}

} // verus!
