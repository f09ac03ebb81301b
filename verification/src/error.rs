//! Error types of the client.

use vstd::prelude::*;
use reqwest::Error as HttpError;
use serde_json::Error as JsonError;
use crate::text::{opt_text_view, same_text, IntoText};

verus! {

/// `reqwest::Error`, the error of the HTTP client, declared so that an error
/// can carry it.
#[verifier::external_type_specification]
#[verifier::external_body]
pub struct ExHttpError(HttpError);

/// `serde_json::Error`, the error of the JSON encoder and decoder, declared
/// so that an error can carry it.
#[verifier::external_type_specification]
#[verifier::external_body]
pub struct ExJsonError(JsonError);

/// `reqwest::Error::is_timeout`: whether the error is related to a timeout.
/// Nothing is claimed of the answer.
pub assume_specification[ HttpError::is_timeout ](e: &HttpError) -> bool;

/// `reqwest::Error::is_connect`: whether the error is related to connecting.
/// Nothing is claimed of the answer.
pub assume_specification[ HttpError::is_connect ](e: &HttpError) -> bool;

/// The result of a call to the API.
pub type Result<T> = std::result::Result<T, Error>;

/// The kinds of errors that the API reports.
#[derive(Debug, Clone, Copy, PartialEq, Eq, Structural)]
pub enum ErrorKind {
    /// The request made was invalid either due to request body or invalid endpoint.
    InvalidRequest,
    /// The error is related to authentication.
    Authentication,
    /// Rate limit error occurs when too many request was sent at a time.
    RateLimit,
    /// Occurs when a resource was not found on the server.
    NotFound,
    /// The caller has no permission to modify the resource.
    PermissionDenied,
    /// Occurs when the same request is a duplicate of the previous one.
    Idempotency,
    /// The servers are down during the requests.
    ServerError,
    /// Fallback error.
    Unknown,
}

impl ErrorKind {
    /// Whether a request that failed with this kind may be sent again.
    pub open spec fn retryable(self) -> bool {
        self == ErrorKind::RateLimit || self == ErrorKind::ServerError
    }

    /// The name under which the kind is shown.
    pub open spec fn name(self) -> Seq<char> {
        match self {
            ErrorKind::InvalidRequest => "invalid_request"@,
            ErrorKind::Authentication => "authentication_error"@,
            ErrorKind::RateLimit => "rate_limit"@,
            ErrorKind::NotFound => "not_found"@,
            ErrorKind::PermissionDenied => "permission_denied"@,
            ErrorKind::Idempotency => "idempotency_error"@,
            ErrorKind::ServerError => "server_error"@,
            ErrorKind::Unknown => "unknown_error"@,
        }
    }

    /// The kind that a name of the API stands for. Each kind has two names;
    /// every other text stands for [`ErrorKind::Unknown`].
    pub open spec fn named(s: Seq<char>) -> ErrorKind {
        if s == "invalid_request"@ || s == "invalid_request_error"@ {
            ErrorKind::InvalidRequest
        } else if s == "authentication"@ || s == "authentication_error"@ {
            ErrorKind::Authentication
        } else if s == "rate_limit"@ || s == "rate_limit_error"@ {
            ErrorKind::RateLimit
        } else if s == "not_found"@ || s == "resource_not_found"@ {
            ErrorKind::NotFound
        } else if s == "permission_denied"@ || s == "forbidden"@ {
            ErrorKind::PermissionDenied
        } else if s == "idempotency"@ || s == "idempotency_error"@ {
            ErrorKind::Idempotency
        } else if s == "server_error"@ || s == "internal_server_error"@ {
            ErrorKind::ServerError
        } else {
            ErrorKind::Unknown
        }
    }

    /// The name under which the kind is shown.
    pub fn to_string(&self) -> (s: String)
        ensures
            s@ == self.name(),
    {
        match self {
            ErrorKind::InvalidRequest => "invalid_request".to_owned(),
            ErrorKind::Authentication => "authentication_error".to_owned(),
            ErrorKind::RateLimit => "rate_limit".to_owned(),
            ErrorKind::NotFound => "not_found".to_owned(),
            ErrorKind::PermissionDenied => "permission_denied".to_owned(),
            ErrorKind::Idempotency => "idempotency_error".to_owned(),
            ErrorKind::ServerError => "server_error".to_owned(),
            ErrorKind::Unknown => "unknown_error".to_owned(),
        }
    }

    /// The kind that a name of the API stands for. This never fails: a text
    /// that is no name of a kind stands for [`ErrorKind::Unknown`].
    pub fn from_str(s: &str) -> (r: std::result::Result<Self, ()>)
        ensures
            r == Ok::<ErrorKind, ()>(ErrorKind::named(s@)),
    {
        let err = if same_text(s, "invalid_request") || same_text(s, "invalid_request_error") {
            ErrorKind::InvalidRequest
        } else if same_text(s, "authentication") || same_text(s, "authentication_error") {
            ErrorKind::Authentication
        } else if same_text(s, "rate_limit") || same_text(s, "rate_limit_error") {
            ErrorKind::RateLimit
        } else if same_text(s, "not_found") || same_text(s, "resource_not_found") {
            ErrorKind::NotFound
        } else if same_text(s, "permission_denied") || same_text(s, "forbidden") {
            ErrorKind::PermissionDenied
        } else if same_text(s, "idempotency") || same_text(s, "idempotency_error") {
            ErrorKind::Idempotency
        } else if same_text(s, "server_error") || same_text(s, "internal_server_error") {
            ErrorKind::ServerError
        } else {
            ErrorKind::Unknown
        };
        Ok(err)
    }

    /// Returns `true` if the request is retryable: the kind is either
    /// [`ErrorKind::RateLimit`] or [`ErrorKind::ServerError`].
    #[must_use]
    pub fn is_retryable(self) -> (r: bool)
        ensures
            r == self.retryable(),
    {
        matches!(self, ErrorKind::RateLimit | ErrorKind::ServerError)
    }
}

impl std::str::FromStr for ErrorKind {
    type Err = ();

    /// The kind that a name of the API stands for, as the inherent
    /// `from_str` gives it. This never fails.
    fn from_str(s: &str) -> (r: std::result::Result<Self, ()>)
        ensures
            r == Ok::<ErrorKind, ()>(ErrorKind::named(s@)),
    {
        ErrorKind::from_str(s)
    }
}

/// The ways in which a call to the API can fail.
#[derive(Debug)]
pub enum Error {
    /// The HTTP request failed.
    Http(HttpError),
    /// The API answered with an error.
    Api {
        /// The kind of the error.
        kind: ErrorKind,
        /// The message of the error.
        message: String,
        /// The HTTP status code of the answer.
        status_code: Option<u16>,
        /// The request identifier in the headers of the answer.
        request_id: Option<String>,
    },
    /// Encoding or decoding JSON failed.
    Json(JsonError),
    /// The configuration is wrong.
    Config(String),
    /// The API key is invalid.
    InvalidApiKey(String),
    /// Too many requests were sent at a time.
    RateLimit {
        /// How long to wait before the next call.
        retry_after: Option<std::time::Duration>,
    },
    /// The request timed out.
    Timeout(std::time::Duration),
    /// The request is invalid.
    InvalidRequest(String),
    /// The resource was not found.
    NotFound(String),
    /// Authentication failed with a well-formed API key.
    Authentication(String),
    /// The caller has no permission to modify the resource.
    PermissionDenied(String),
    /// The request duplicates an earlier one.
    Idempotency(String),
    /// An internal error.
    Internal(String),
}

impl From<HttpError> for Error {
    fn from(e: HttpError) -> (r: Self) {
        Error::Http(e)
    }
}

impl vstd::std_specs::convert::FromSpecImpl<HttpError> for Error {
    open spec fn obeys_from_spec() -> bool {
        true
    }

    open spec fn from_spec(e: HttpError) -> Self {
        Error::Http(e)
    }
}

impl From<JsonError> for Error {
    fn from(e: JsonError) -> (r: Self) {
        Error::Json(e)
    }
}

impl vstd::std_specs::convert::FromSpecImpl<JsonError> for Error {
    open spec fn obeys_from_spec() -> bool {
        true
    }

    open spec fn from_spec(e: JsonError) -> Self {
        Error::Json(e)
    }
}

impl Error {
    /// An error of the API without a status code.
    #[must_use]
    pub fn api(kind: ErrorKind, message: impl IntoText) -> (r: Self)
        ensures
            r matches Error::Api { kind: k, message: m, status_code: None, request_id: None }
                && k == kind && m@ == message.text(),
    {
        Error::Api { kind, message: message.into_text(), status_code: None, request_id: None }
    }

    /// An error of the API with its status code.
    #[must_use]
    pub fn api_with_status(kind: ErrorKind, message: impl IntoText, status_code: u16) -> (r: Self)
        ensures
            r matches Error::Api { kind: k, message: m, status_code: Some(c), request_id: None }
                && k == kind && m@ == message.text() && c == status_code,
    {
        Error::Api {
            kind,
            message: message.into_text(),
            status_code: Some(status_code),
            request_id: None,
        }
    }

    /// Whether a failed HTTP request may be sent again, given what the HTTP
    /// client says of its error: it may when the error is related to a
    /// timeout or to connecting.
    pub fn http_retryable(timeout: bool, connect: bool) -> (r: bool)
        ensures
            r == (timeout || connect),
    {
        timeout || connect
    }

    /// Returns `true` if the request may be sent again: an error of the API
    /// of a retryable kind, a rate limit, or a timeout. Of a failed HTTP
    /// request the HTTP client decides ([`Error::http_retryable`]). Every
    /// other error is final.
    #[must_use]
    pub fn is_retryable(&self) -> (r: bool)
        ensures
            match self {
                Error::Api { kind, .. } => r == kind.retryable(),
                Error::RateLimit { .. } => r,
                Error::Timeout(_) => r,
                Error::Http(_) => true,
                _ => !r,
            },
    {
        match self {
            Error::Api { kind, .. } => kind.is_retryable(),
            Error::RateLimit { .. } => true,
            Error::Timeout(_) => true,
            Error::Http(e) => {
                let timeout = e.is_timeout();
                if timeout {
                    Error::http_retryable(timeout, false)
                } else {
                    Error::http_retryable(timeout, e.is_connect())
                }
            },
            _ => false,
        }
    }

    /// The status code of an error of the API; `None` for every other error.
    #[must_use]
    pub fn status_code(&self) -> (r: Option<u16>)
        ensures
            r == match self {
                Error::Api { status_code, .. } => *status_code,
                _ => None,
            },
    {
        match self {
            Error::Api { status_code, .. } => *status_code,
            _ => None,
        }
    }

    /// The request identifier of an error of the API; `None` for every other error.
    #[must_use]
    pub fn request_id(&self) -> (r: Option<&str>)
        ensures
            match self {
                Error::Api { request_id, .. } => match r {
                    Some(id) => opt_text_view(*request_id) == Some(id@),
                    None => request_id is None,
                },
                _ => r is None,
            },
    {
        match self {
            Error::Api { request_id, .. } => match request_id {
                Some(id) => Some(id.as_str()),
                None => None,
            },
            _ => None,
        }
    }
}

} // verus!
