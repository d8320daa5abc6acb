use vstd::prelude::*;

verus! {

/// The HTTP status code of a successful reply.
pub const STATUS_OK: u16 = 200;

/// Everything that can go wrong while serving a request.
#[derive(Debug, Clone, Copy, PartialEq, Eq, Structural)]
pub enum ErrorKind {
    DbConnection,
    Server,
    InvalidEmailAddress,
    EmailAlreadyUsed,
    LoginFailed,
    Unauthorized,
    InvalidToken,
    InvalidRideId,
    InvalidReview,
    FailedRideOperation,
}

/// The HTTP status code that answers an error of the given kind.
pub open spec fn status_code_of(kind: ErrorKind) -> u16 {
    match kind {
        ErrorKind::DbConnection => 502,
        ErrorKind::Server => 500,
        ErrorKind::Unauthorized => 401,
        _ => 400,
    }
}

impl ErrorKind {
    /// The HTTP status code of this error: 502 (bad gateway) when the
    /// database cannot be reached, 500 for an internal failure, 401 when the
    /// caller may not do what it asked, and 400 for every fault of the request.
    pub fn get_status_code(&self) -> (code: u16)
        ensures
            code == status_code_of(*self),
    {
        match self {
            ErrorKind::DbConnection => 502,
            ErrorKind::Server => 500,
            ErrorKind::InvalidEmailAddress
            | ErrorKind::EmailAlreadyUsed
            | ErrorKind::LoginFailed
            | ErrorKind::InvalidToken
            | ErrorKind::InvalidRideId
            | ErrorKind::InvalidReview
            | ErrorKind::FailedRideOperation => 400,
            ErrorKind::Unauthorized => 401,
        }
    }
}

/// The error body that a failed request is answered with.
#[derive(Debug, Clone, Copy, PartialEq, Eq, Structural)]
pub struct Error {
    pub error_kind: ErrorKind,
}

impl Error {
    pub fn new(error_kind: ErrorKind) -> (e: Self)
        ensures
            e.error_kind == error_kind,
    {
        Self { error_kind }
    }

    /// The HTTP status code that this error is answered with.
    pub fn status_code(&self) -> (code: u16)
        ensures
            code == status_code_of(self.error_kind),
    {
        self.error_kind.get_status_code()
    }
}

/// A successful reply that carries a payload.
pub struct SuccessWithPayload<T> {
    pub payload: T,
}

impl<T> SuccessWithPayload<T> {
    pub fn new(payload: T) -> (r: Self)
        ensures
            r.payload == payload,
    {
        Self { payload }
    }
}

} // verus!
