//! What can go wrong in a call, and how an HTTP status is told apart from success.
//!
//! Every failure is a value that is handed to the caller. Nothing here panics and
//! nothing is retried.

use vstd::prelude::*;

verus! {

/// Why a request description could not be built.
#[derive(Debug, Clone, Copy, PartialEq, Eq, Structural)]
pub enum BuildError {
    /// The path does not resolve against the base URL to a URI that can be sent.
    MalformedUrl,
    /// The credential cannot be carried in a header.
    InvalidHeader,
}

/// Where decoding a response body stopped.
#[derive(Debug, Clone, Copy, PartialEq, Eq, Structural)]
pub enum DecodeStage {
    /// The bytes of the body could not all be read.
    Read,
    /// The bytes were read but are not a document of the expected schema.
    Parse,
}

/// The exchange's own account of a failure, as it comes in the body of a response
/// with a failure status.
#[derive(Debug, Clone, PartialEq, Eq)]
pub struct ErrorPayload {
    pub code: String,
    pub message: String,
}

/// The mathematical value of an [`ErrorPayload`].
pub struct PayloadView {
    pub code: Seq<char>,
    pub message: Seq<char>,
}

impl View for ErrorPayload {
    type V = PayloadView;

    open spec fn view(&self) -> PayloadView {
        PayloadView { code: self.code@, message: self.message@ }
    }
}

/// A failed call.
#[derive(Debug, Clone, PartialEq, Eq)]
pub enum Error {
    /// The request could not be described; nothing was sent.
    RequestBuild(BuildError),
    /// The transport failed below the HTTP layer; the text is the transport's own.
    Transport(String),
    /// The service answered with a failure status. The payload is there when the
    /// body held one.
    Http { status: u16, payload: Option<ErrorPayload> },
    /// The service answered with success but the body could not be decoded.
    Decode(DecodeStage),
    /// No access token could be obtained, so the call was not attempted.
    AuthUnavailable,
}

/// The mathematical value of an [`Error`].
pub enum ErrorView {
    RequestBuild(BuildError),
    Transport(Seq<char>),
    Http { status: u16, payload: Option<PayloadView> },
    Decode(DecodeStage),
    AuthUnavailable,
}

/// The value of a payload that may be missing.
pub open spec fn payload_view(payload: Option<ErrorPayload>) -> Option<PayloadView> {
    match payload {
        Some(p) => Some(p@),
        None => None,
    }
}

impl View for Error {
    type V = ErrorView;

    open spec fn view(&self) -> ErrorView {
        match self {
            Error::RequestBuild(e) => ErrorView::RequestBuild(*e),
            Error::Transport(text) => ErrorView::Transport(text@),
            Error::Http { status, payload } => ErrorView::Http {
                status: *status,
                payload: payload_view(*payload),
            },
            Error::Decode(stage) => ErrorView::Decode(*stage),
            Error::AuthUnavailable => ErrorView::AuthUnavailable,
        }
    }
}

/// The statuses that denote success: 200 to 299.
pub open spec fn is_success_status(status: u16) -> bool {
    200 <= status < 300
}

/// The error that a failure status and the payload found in its body make.
pub open spec fn http_error(status: u16, payload: Option<PayloadView>) -> ErrorView {
    ErrorView::Http { status, payload }
}

/// The numbers that are status codes at all: 100 to 999.
pub open spec fn is_status_code(status: u16) -> bool {
    100 <= status < 1000
}

/// `hyper::StatusCode::from_u16`, and `hyper::StatusCode::is_success` on the code
/// it gives. `from_u16` accepts exactly 100 to 999, and `is_success` holds exactly
/// of 200 to 299. `None` stands for the number that `from_u16` refuses.
#[verifier::external_body]
fn status_success(status: u16) -> (success: Option<bool>)
    ensures
        success == if is_status_code(status) {
            Some(is_success_status(status))
        } else {
            None
        },
{
    match hyper::StatusCode::from_u16(status) {
        Ok(code) => Some(code.is_success()),
        Err(_) => None,
    }
}

impl Error {
    /// Whether a status denotes failure: every status outside 200 to 299 does, and
    /// so does a number that is no status code at all.
    pub fn is_error_code(status: u16) -> (failed: bool)
        ensures
            failed == !is_success_status(status),
    {
        match status_success(status) {
            Some(success) => !success,
            None => true,
        }
    }

    /// The error for a response with a failure status. `payload` is what the body
    /// held, or `None` where the body was not a payload of the exchange: the
    /// status is kept either way.
    pub fn to_error(status: u16, payload: Option<ErrorPayload>) -> (error: Error)
        ensures
            error@ == http_error(status, payload_view(payload)),
    {
        Error::Http { status, payload }
    }
}

} // verus!
