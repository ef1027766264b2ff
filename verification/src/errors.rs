//! The error taxonomy shared by every operation of the engine.

use vstd::prelude::*;
use vstd::string::*;

verus! {

/// Why a request was turned down.
///
/// `Validation`, `Forbidden`, `NotFound` and `BadRequest` are raised before any
/// mutating step begins; `Internal` reports a persistence failure inside a unit
/// of work, after that unit has been abandoned.
#[derive(Debug)]
pub enum AppError {
    /// Malformed or out-of-bound input.
    Validation(String),
    /// The caller lacks the authority for the operation.
    Forbidden(String),
    /// A referenced entity does not exist.
    NotFound(String),
    /// The request cannot be served in the current configuration.
    BadRequest(String),
    /// The persistent store failed in the middle of the operation.
    Internal(String),
}

/// The class of an [`AppError`], without its message.
#[derive(Clone, Copy, PartialEq, Eq, Structural, Debug)]
pub enum ErrorKind {
    Validation,
    Forbidden,
    NotFound,
    BadRequest,
    Internal,
}

impl AppError {
    /// The class of the error.
    pub open spec fn kind_of(self) -> ErrorKind {
        match self {
            AppError::Validation(_) => ErrorKind::Validation,
            AppError::Forbidden(_) => ErrorKind::Forbidden,
            AppError::NotFound(_) => ErrorKind::NotFound,
            AppError::BadRequest(_) => ErrorKind::BadRequest,
            AppError::Internal(_) => ErrorKind::Internal,
        }
    }

    /// The class of the error.
    pub fn kind(&self) -> (k: ErrorKind)
        ensures
            k == self.kind_of(),
    {
        match self {
            AppError::Validation(_) => ErrorKind::Validation,
            AppError::Forbidden(_) => ErrorKind::Forbidden,
            AppError::NotFound(_) => ErrorKind::NotFound,
            AppError::BadRequest(_) => ErrorKind::BadRequest,
            AppError::Internal(_) => ErrorKind::Internal,
        }
    }

    /// The human-readable message carried by the error.
    pub open spec fn text(self) -> Seq<char> {
        match self {
            AppError::Validation(m) => m@,
            AppError::Forbidden(m) => m@,
            AppError::NotFound(m) => m@,
            AppError::BadRequest(m) => m@,
            AppError::Internal(m) => m@,
        }
    }

    /// A copy of the message carried by the error.
    pub fn message(&self) -> (r: String)
        ensures
            r@ == self.text(),
    {
        match self {
            AppError::Validation(m) => m.clone(),
            AppError::Forbidden(m) => m.clone(),
            AppError::NotFound(m) => m.clone(),
            AppError::BadRequest(m) => m.clone(),
            AppError::Internal(m) => m.clone(),
        }
    }

    /// An error of the same class with the same message.
    pub fn duplicate(&self) -> (e: AppError)
        ensures
            e.kind_of() == self.kind_of(),
            e.text() == self.text(),
    {
        match self {
            AppError::Validation(m) => AppError::Validation(m.clone()),
            AppError::Forbidden(m) => AppError::Forbidden(m.clone()),
            AppError::NotFound(m) => AppError::NotFound(m.clone()),
            AppError::BadRequest(m) => AppError::BadRequest(m.clone()),
            AppError::Internal(m) => AppError::Internal(m.clone()),
        }
    }

    /// A validation error with the given message.
    pub fn validation(msg: &str) -> (e: AppError)
        ensures
            e is Validation,
            e.text() == msg@,
    {
        AppError::Validation(String::from_str(msg))
    }

    /// An authorization error with the given message.
    pub fn forbidden(msg: &str) -> (e: AppError)
        ensures
            e is Forbidden,
            e.text() == msg@,
    {
        AppError::Forbidden(String::from_str(msg))
    }

    /// A missing-entity error with the given message.
    pub fn not_found(msg: &str) -> (e: AppError)
        ensures
            e is NotFound,
            e.text() == msg@,
    {
        AppError::NotFound(String::from_str(msg))
    }

    /// A bad-request error with the given message.
    pub fn bad_request(msg: &str) -> (e: AppError)
        ensures
            e is BadRequest,
            e.text() == msg@,
    {
        AppError::BadRequest(String::from_str(msg))
    }

    /// An internal error with the given message.
    pub fn internal(msg: &str) -> (e: AppError)
        ensures
            e is Internal,
            e.text() == msg@,
    {
        AppError::Internal(String::from_str(msg))
    }
}

} // verus!
