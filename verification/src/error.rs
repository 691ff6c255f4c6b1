//! The error type of the crate and the kinds of failure it distinguishes.

use vstd::prelude::*;
use vstd::string::*;

verus! {

/// `reqwest::Error`: what a request that got no response failed with. It
/// is carried through; nothing inside it is read.
#[verifier::external_type_specification]
#[verifier::external_body]
pub struct ExTransportError(reqwest::Error);

/// `serde_json::Error`: what the decoding of a body failed with. It is
/// carried through; nothing inside it is read.
#[verifier::external_type_specification]
#[verifier::external_body]
pub struct ExDecodeError(serde_json::Error);

/// What went wrong, without the details.
#[derive(Debug, Clone, Copy, PartialEq, Eq, Hash, Structural)]
pub enum ErrorKind {
    /// The server answered 404.
    ResourceNotFound,
    /// The server answered 429.
    RateLimitExceeded,
    /// The server answered with a status in 500..=599.
    ServerError,
    /// The server answered 400.
    BadRequest,
    /// The server answered 401.
    Unauthorized,
    /// The server answered with any other status that is not a success.
    ApiError,
    /// No response was obtained at all.
    RequestError,
    /// A successful response did not decode into the expected type.
    JsonError,
    /// A failure that is none of the above.
    Other,
}

/// A failed API call.
///
/// The variants that come from an HTTP status keep that status beside the
/// message, so the wire-level cause is never lost.
#[derive(Debug)]
pub enum NHLApiError {
    ResourceNotFound { message: String, status_code: u16 },
    RateLimitExceeded { message: String, status_code: u16 },
    ServerError { message: String, status_code: u16 },
    BadRequest { message: String, status_code: u16 },
    Unauthorized { message: String, status_code: u16 },
    ApiError { message: String, status_code: u16 },
    RequestError(reqwest::Error),
    JsonError(serde_json::Error),
    Other(String),
}

/// The text that `reqwest::Error`'s `Display` gives for a transport failure.
/// Nothing is claimed of it.
#[verifier::external_body]
fn transport_error_text(error: &reqwest::Error) -> (text: String) {
    error.to_string()
}

/// The text that `serde_json::Error`'s `Display` gives for a decode failure.
/// Nothing is claimed of it.
#[verifier::external_body]
fn decode_error_text(error: &serde_json::Error) -> (text: String) {
    error.to_string()
}

impl NHLApiError {
    /// The kind of this error.
    pub open spec fn spec_kind(self) -> ErrorKind {
        match self {
            NHLApiError::ResourceNotFound { .. } => ErrorKind::ResourceNotFound,
            NHLApiError::RateLimitExceeded { .. } => ErrorKind::RateLimitExceeded,
            NHLApiError::ServerError { .. } => ErrorKind::ServerError,
            NHLApiError::BadRequest { .. } => ErrorKind::BadRequest,
            NHLApiError::Unauthorized { .. } => ErrorKind::Unauthorized,
            NHLApiError::ApiError { .. } => ErrorKind::ApiError,
            NHLApiError::RequestError(_) => ErrorKind::RequestError,
            NHLApiError::JsonError(_) => ErrorKind::JsonError,
            NHLApiError::Other(_) => ErrorKind::Other,
        }
    }

    /// The HTTP status behind this error, for the kinds that have one.
    pub open spec fn spec_status_code(self) -> Option<u16> {
        match self {
            NHLApiError::ResourceNotFound { status_code, .. } => Some(status_code),
            NHLApiError::RateLimitExceeded { status_code, .. } => Some(status_code),
            NHLApiError::ServerError { status_code, .. } => Some(status_code),
            NHLApiError::BadRequest { status_code, .. } => Some(status_code),
            NHLApiError::Unauthorized { status_code, .. } => Some(status_code),
            NHLApiError::ApiError { status_code, .. } => Some(status_code),
            _ => None,
        }
    }

    /// The message carried by this error, for the kinds that carry one.
    pub open spec fn spec_message(self) -> Option<Seq<char>> {
        match self {
            NHLApiError::ResourceNotFound { message, .. } => Some(message@),
            NHLApiError::RateLimitExceeded { message, .. } => Some(message@),
            NHLApiError::ServerError { message, .. } => Some(message@),
            NHLApiError::BadRequest { message, .. } => Some(message@),
            NHLApiError::Unauthorized { message, .. } => Some(message@),
            NHLApiError::ApiError { message, .. } => Some(message@),
            NHLApiError::Other(message) => Some(message@),
            _ => None,
        }
    }

    /// The words that introduce an error of the given kind when it is printed.
    pub open spec fn heading(kind: ErrorKind) -> Seq<char> {
        match kind {
            ErrorKind::ResourceNotFound => "Resource not found: "@,
            ErrorKind::RateLimitExceeded => "Rate limit exceeded: "@,
            ErrorKind::ServerError => "Server error: "@,
            ErrorKind::BadRequest => "Bad request: "@,
            ErrorKind::Unauthorized => "Unauthorized: "@,
            ErrorKind::ApiError => "NHL API error: "@,
            ErrorKind::RequestError => "HTTP request failed: "@,
            ErrorKind::JsonError => "JSON parsing failed: "@,
            ErrorKind::Other => Seq::<char>::empty(),
        }
    }

    /// The kind of this error.
    pub fn kind(&self) -> (kind: ErrorKind)
        ensures
            kind == self.spec_kind(),
    {
        match self {
            NHLApiError::ResourceNotFound { .. } => ErrorKind::ResourceNotFound,
            NHLApiError::RateLimitExceeded { .. } => ErrorKind::RateLimitExceeded,
            NHLApiError::ServerError { .. } => ErrorKind::ServerError,
            NHLApiError::BadRequest { .. } => ErrorKind::BadRequest,
            NHLApiError::Unauthorized { .. } => ErrorKind::Unauthorized,
            NHLApiError::ApiError { .. } => ErrorKind::ApiError,
            NHLApiError::RequestError(_) => ErrorKind::RequestError,
            NHLApiError::JsonError(_) => ErrorKind::JsonError,
            NHLApiError::Other(_) => ErrorKind::Other,
        }
    }

    /// The HTTP status behind this error, if it came from one.
    pub fn status_code(&self) -> (code: Option<u16>)
        ensures
            code == self.spec_status_code(),
    {
        match self {
            NHLApiError::ResourceNotFound { status_code, .. } => Some(*status_code),
            NHLApiError::RateLimitExceeded { status_code, .. } => Some(*status_code),
            NHLApiError::ServerError { status_code, .. } => Some(*status_code),
            NHLApiError::BadRequest { status_code, .. } => Some(*status_code),
            NHLApiError::Unauthorized { status_code, .. } => Some(*status_code),
            NHLApiError::ApiError { status_code, .. } => Some(*status_code),
            _ => None,
        }
    }

    /// The message carried by this error, if it carries one.
    pub fn message(&self) -> (message: Option<&str>)
        ensures
            message is Some == self.spec_message() is Some,
            message matches Some(text) ==> Some(text@) == self.spec_message(),
    {
        match self {
            NHLApiError::ResourceNotFound { message, .. } => Some(message.as_str()),
            NHLApiError::RateLimitExceeded { message, .. } => Some(message.as_str()),
            NHLApiError::ServerError { message, .. } => Some(message.as_str()),
            NHLApiError::BadRequest { message, .. } => Some(message.as_str()),
            NHLApiError::Unauthorized { message, .. } => Some(message.as_str()),
            NHLApiError::ApiError { message, .. } => Some(message.as_str()),
            NHLApiError::Other(message) => Some(message.as_str()),
            _ => None,
        }
    }

    /// The heading of the given kind as a string slice.
    fn heading_str(kind: ErrorKind) -> (heading: &'static str)
        ensures
            heading@ == Self::heading(kind),
    {
        proof {
            reveal_strlit("");
        }
        match kind {
            ErrorKind::ResourceNotFound => "Resource not found: ",
            ErrorKind::RateLimitExceeded => "Rate limit exceeded: ",
            ErrorKind::ServerError => "Server error: ",
            ErrorKind::BadRequest => "Bad request: ",
            ErrorKind::Unauthorized => "Unauthorized: ",
            ErrorKind::ApiError => "NHL API error: ",
            ErrorKind::RequestError => "HTTP request failed: ",
            ErrorKind::JsonError => "JSON parsing failed: ",
            ErrorKind::Other => "",
        }
    }

    /// The error as a line of text: the heading of its kind, then its message.
    /// For a transport or decode failure the heading is followed by whatever
    /// the underlying error prints.
    pub fn to_string(&self) -> (text: String)
        ensures
            self.spec_message() matches Some(message) ==> text@ == Self::heading(
                self.spec_kind(),
            ) + message,
            self.spec_message() is None ==> Self::heading(self.spec_kind()).is_prefix_of(text@),
    {
        let heading = Self::heading_str(self.kind());
        let text = match self {
            NHLApiError::RequestError(error) => {
                let detail = transport_error_text(error);
                String::from_str(heading).concat(detail.as_str())
            },
            NHLApiError::JsonError(error) => {
                let detail = decode_error_text(error);
                String::from_str(heading).concat(detail.as_str())
            },
            NHLApiError::ResourceNotFound { message, .. } => String::from_str(heading).concat(
                message.as_str(),
            ),
            NHLApiError::RateLimitExceeded { message, .. } => String::from_str(heading).concat(
                message.as_str(),
            ),
            NHLApiError::ServerError { message, .. } => String::from_str(heading).concat(
                message.as_str(),
            ),
            NHLApiError::BadRequest { message, .. } => String::from_str(heading).concat(
                message.as_str(),
            ),
            NHLApiError::Unauthorized { message, .. } => String::from_str(heading).concat(
                message.as_str(),
            ),
            NHLApiError::ApiError { message, .. } => String::from_str(heading).concat(
                message.as_str(),
            ),
            NHLApiError::Other(message) => String::from_str(heading).concat(message.as_str()),
        };
        text
    }
}

impl From<reqwest::Error> for NHLApiError {
    fn from(error: reqwest::Error) -> (converted: NHLApiError) {
        NHLApiError::RequestError(error)
    }
}

impl vstd::std_specs::convert::FromSpecImpl<reqwest::Error> for NHLApiError {
    open spec fn obeys_from_spec() -> bool {
        true
    }

    open spec fn from_spec(error: reqwest::Error) -> NHLApiError {
        NHLApiError::RequestError(error)
    }
}

impl From<serde_json::Error> for NHLApiError {
    fn from(error: serde_json::Error) -> (converted: NHLApiError) {
        NHLApiError::JsonError(error)
    }
}

impl vstd::std_specs::convert::FromSpecImpl<serde_json::Error> for NHLApiError {
    open spec fn obeys_from_spec() -> bool {
        true
    }

    open spec fn from_spec(error: serde_json::Error) -> NHLApiError {
        NHLApiError::JsonError(error)
    }
}

} // verus!
