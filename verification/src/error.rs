//! The errors of the server itself, and how they are answered.

use crate::shared::text::joined;
use vstd::prelude::*;
use vstd::string::*;

verus! {

/// Why a request that the server made for itself failed.
#[derive(Debug, Clone, Copy, PartialEq, Eq)]
pub enum RequestFailure {
    /// The request timed out.
    Timeout,
    /// No connection could be made.
    Connect,
    /// The request could not be sent.
    Request,
    /// Anything else.
    Other,
}

/// An error of the server.
#[derive(Debug)]
pub enum AppError {
    RequestFailed { failure: RequestFailure, detail: String },
    InvalidUrl(String),
    Timeout(String),
    Internal(String),
}

/// The kind of a failed request: a timeout before a failure to connect,
/// that before a failure to send, and anything else last.
pub open spec fn failure_kind(timed_out: bool, connect: bool, request: bool) -> RequestFailure {
    if timed_out {
        RequestFailure::Timeout
    } else if connect {
        RequestFailure::Connect
    } else if request {
        RequestFailure::Request
    } else {
        RequestFailure::Other
    }
}

impl RequestFailure {
    /// The kind of a failed request, from what is known of it.
    pub fn classify(timed_out: bool, connect: bool, request: bool) -> (kind: Self)
        ensures
            kind == failure_kind(timed_out, connect, request),
    {
        if timed_out {
            RequestFailure::Timeout
        } else if connect {
            RequestFailure::Connect
        } else if request {
            RequestFailure::Request
        } else {
            RequestFailure::Other
        }
    }
}

impl AppError {
    /// The HTTP status with which the error is answered.
    pub open spec fn status_of(self) -> u16 {
        match self {
            AppError::RequestFailed { .. } => 502,
            AppError::InvalidUrl(_) => 400,
            AppError::Timeout(_) => 504,
            AppError::Internal(_) => 500,
        }
    }

    /// The code of the error.
    pub open spec fn code_of(self) -> Seq<char> {
        match self {
            AppError::RequestFailed { failure, .. } => match failure {
                RequestFailure::Timeout => "TIMEOUT"@,
                RequestFailure::Connect => "CONNECTION_FAILED"@,
                RequestFailure::Request => "REQUEST_ERROR"@,
                RequestFailure::Other => "REQUEST_FAILED"@,
            },
            AppError::InvalidUrl(_) => "INVALID_URL"@,
            AppError::Timeout(_) => "TIMEOUT"@,
            AppError::Internal(_) => "INTERNAL_ERROR"@,
        }
    }

    /// The message of the error.
    pub open spec fn message_of(self) -> Seq<char> {
        match self {
            AppError::RequestFailed { detail, .. } => "Request failed: "@ + detail@,
            AppError::InvalidUrl(detail) => "Invalid URL: "@ + detail@,
            AppError::Timeout(detail) => "Timeout: "@ + detail@,
            AppError::Internal(detail) => "Internal error: "@ + detail@,
        }
    }

    /// The HTTP status with which the error is answered.
    pub fn status(&self) -> (status: u16)
        ensures
            status == self.status_of(),
    {
        match self {
            AppError::RequestFailed { .. } => 502,
            AppError::InvalidUrl(_) => 400,
            AppError::Timeout(_) => 504,
            AppError::Internal(_) => 500,
        }
    }

    /// The code of the error.
    pub fn code(&self) -> (code: &'static str)
        ensures
            code@ == self.code_of(),
    {
        match self {
            AppError::RequestFailed { failure, .. } => match failure {
                RequestFailure::Timeout => "TIMEOUT",
                RequestFailure::Connect => "CONNECTION_FAILED",
                RequestFailure::Request => "REQUEST_ERROR",
                RequestFailure::Other => "REQUEST_FAILED",
            },
            AppError::InvalidUrl(_) => "INVALID_URL",
            AppError::Timeout(_) => "TIMEOUT",
            AppError::Internal(_) => "INTERNAL_ERROR",
        }
    }

    /// The message of the error.
    pub fn message(&self) -> (message: String)
        ensures
            message@ == self.message_of(),
    {
        match self {
            AppError::RequestFailed { detail, .. } => joined("Request failed: ", detail.as_str()),
            AppError::InvalidUrl(detail) => joined("Invalid URL: ", detail.as_str()),
            AppError::Timeout(detail) => joined("Timeout: ", detail.as_str()),
            AppError::Internal(detail) => joined("Internal error: ", detail.as_str()),
        }
    }
}

} // verus!
