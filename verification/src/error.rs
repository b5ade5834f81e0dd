//! The service's error taxonomy and how each kind is reported.

use vstd::prelude::*;

verus! {

/// What went wrong, by kind. The kind alone decides the response status.
#[derive(Debug, Clone, Copy, PartialEq, Eq, Structural)]
pub enum ErrorKind {
    /// Missing or invalid operation parameters.
    Parameter,
    /// The content type or stored format is not one of the known formats.
    Format,
    /// No bytes or no metadata exist for the given id.
    NotFound,
    /// Creating, reading or writing a file failed.
    Io,
    /// The image library could not decode, encode or transform.
    Codec,
    /// A metadata record exists but cannot be parsed.
    CorruptData,
}

/// An error of the service: its kind and the text shown to the client.
#[derive(Debug)]
pub struct ServiceError {
    pub kind: ErrorKind,
    pub message: String,
}

/// The mathematical value of a [`ServiceError`].
pub struct ServiceErrorView {
    pub kind: ErrorKind,
    pub message: Seq<char>,
}

impl View for ServiceError {
    type V = ServiceErrorView;

    open spec fn view(&self) -> ServiceErrorView {
        ServiceErrorView { kind: self.kind, message: self.message@ }
    }
}

/// The body of every error response.
#[derive(Debug)]
pub struct ErrorResponse {
    pub error: String,
}

impl View for ErrorResponse {
    type V = Seq<char>;

    open spec fn view(&self) -> Seq<char> {
        self.error@
    }
}

/// Status of a client error.
pub const STATUS_BAD_REQUEST: u16 = 400;

/// Status of a server error.
pub const STATUS_SERVER_ERROR: u16 = 500;

/// The response status of an error kind: parameter and format errors are
/// the client's, all others are the server's.
pub open spec fn status_of(kind: ErrorKind) -> u16 {
    match kind {
        ErrorKind::Parameter | ErrorKind::Format => STATUS_BAD_REQUEST,
        _ => STATUS_SERVER_ERROR,
    }
}

impl ErrorKind {
    /// The response status that reports an error of this kind.
    pub fn status(&self) -> (code: u16)
        ensures
            code == status_of(*self),
    {
        match self {
            ErrorKind::Parameter | ErrorKind::Format => STATUS_BAD_REQUEST,
            _ => STATUS_SERVER_ERROR,
        }
    }

    /// Whether the client, not the service, is at fault.
    pub fn is_client_error(&self) -> (client: bool)
        ensures
            client == (status_of(*self) == STATUS_BAD_REQUEST),
            client == (*self == ErrorKind::Parameter || *self == ErrorKind::Format),
    {
        match self {
            ErrorKind::Parameter | ErrorKind::Format => true,
            _ => false,
        }
    }
}

impl ServiceError {
    /// An error of the given kind with the given text.
    pub fn new(kind: ErrorKind, message: &str) -> (e: ServiceError)
        ensures
            e@ == (ServiceErrorView { kind, message: message@ }),
    {
        ServiceError { kind, message: message.to_owned() }
    }

    /// The response status that reports this error.
    pub fn status(&self) -> (code: u16)
        ensures
            code == status_of(self@.kind),
    {
        self.kind.status()
    }

    /// The response body that reports this error.
    pub fn into_body(self) -> (body: ErrorResponse)
        ensures
            body@ == self@.message,
    {
        ErrorResponse { error: self.message }
    }
}

} // verus!
