//! The ways in which handling a request can fail.

use crate::protocol::response::status::StatusCode;
use vstd::prelude::*;

verus! {

/// Why the storage backend refused an operation.
#[derive(Clone, Copy, Debug, PartialEq, Eq, Structural)]
pub enum StorageErrorKind {
    /// The object or prefix does not exist.
    NotFound,
    /// The backend denied access.
    PermissionDenied,
    /// Anything else; the detail stays on the server.
    Other,
}

/// The ways in which handling a request can fail.
#[derive(Clone, Copy, Debug, PartialEq, Eq, Structural)]
pub enum Error {
    /// The input is malformed: a field is missing, short, or not valid text.
    BadMessage,
    /// The input is well formed but asks for something this server does not do.
    Unimplemented,
    /// The request names a handle that is not open in this session.
    NoSuchHandle,
    /// The request cannot be carried out as stated.
    Failure,
    /// The storage backend failed.
    StorageFailure { kind: StorageErrorKind },
    /// The connection has no usable session any more and must end.
    Fatal,
}

impl Error {
    /// The status that tells the client of this error. The table is fixed:
    /// nothing of the server's inner state shows in it.
    pub open spec fn status(self) -> StatusCode {
        match self {
            Error::BadMessage => StatusCode::BadMessage,
            Error::Unimplemented => StatusCode::OpUnsupported,
            Error::NoSuchHandle => StatusCode::InvalidHandle,
            Error::Failure => StatusCode::Failure,
            Error::StorageFailure { kind: StorageErrorKind::NotFound } => StatusCode::NoSuchFile,
            Error::StorageFailure { kind: StorageErrorKind::PermissionDenied } =>
                StatusCode::PermissionDenied,
            Error::StorageFailure { kind: StorageErrorKind::Other } => StatusCode::Failure,
            Error::Fatal => StatusCode::Failure,
        }
    }

    /// Looks the error up in the table of status codes.
    pub fn status_code(&self) -> (code: StatusCode)
        ensures
            code == self.status(),
    {
        match self {
            Error::BadMessage => StatusCode::BadMessage,
            Error::Unimplemented => StatusCode::OpUnsupported,
            Error::NoSuchHandle => StatusCode::InvalidHandle,
            Error::Failure => StatusCode::Failure,
            Error::StorageFailure { kind } => match kind {
                StorageErrorKind::NotFound => StatusCode::NoSuchFile,
                StorageErrorKind::PermissionDenied => StatusCode::PermissionDenied,
                StorageErrorKind::Other => StatusCode::Failure,
            },
            Error::Fatal => StatusCode::Failure,
        }
    }
}

} // verus!
