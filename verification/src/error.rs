//! Errors of the service and the HTTP status each one is answered with.

use vstd::prelude::*;
use crate::text::owned;

verus! {

/// An error that ends a request.
#[derive(Debug)]
pub enum AppError {
    /// The token or file asked for does not exist (404).
    NotFound(String),
    /// The request is malformed (400).
    BadRequest(String),
    /// The upload's media type is not accepted (415).
    UnsupportedFormat,
    /// The upload exceeds the size limit (413).
    FileTooLarge,
    /// Storage or database failure (500).
    Internal(String),
}

/// The HTTP status code answering an error.
pub open spec fn status_of(e: AppError) -> u16 {
    match e {
        AppError::NotFound(_) => 404,
        AppError::BadRequest(_) => 400,
        AppError::UnsupportedFormat => 415,
        AppError::FileTooLarge => 413,
        AppError::Internal(_) => 500,
    }
}

/// The text put in the `error` field of the JSON body answering an error.
pub open spec fn message_of(e: AppError) -> Seq<char> {
    match e {
        AppError::NotFound(m) => m@,
        AppError::BadRequest(m) => m@,
        AppError::UnsupportedFormat => "Unsupported video format"@,
        AppError::FileTooLarge => "File exceeds the 1 GB upload limit"@,
        AppError::Internal(_) => "Internal server error"@,
    }
}

impl AppError {
    /// The HTTP status code answering this error.
    pub fn status_code(&self) -> (code: u16)
        ensures
            code == status_of(*self),
    {
        match self {
            AppError::NotFound(_) => 404,
            AppError::BadRequest(_) => 400,
            AppError::UnsupportedFormat => 415,
            AppError::FileTooLarge => 413,
            AppError::Internal(_) => 500,
        }
    }

    /// The text shown to the client for this error. The detail of an
    /// internal failure is not shown.
    pub fn message(&self) -> (m: String)
        ensures
            m@ == message_of(*self),
    {
        match self {
            AppError::NotFound(m) => owned(m.as_str()),
            AppError::BadRequest(m) => owned(m.as_str()),
            AppError::UnsupportedFormat => owned("Unsupported video format"),
            AppError::FileTooLarge => owned("File exceeds the 1 GB upload limit"),
            AppError::Internal(_) => owned("Internal server error"),
        }
    }
}

} // verus!
