//! Failures: what the cluster API reports, and what a reconcile hands on.

use vstd::prelude::*;

verus! {

/// Status code with which the API answers a read of an object that does not
/// exist.
pub const NOT_FOUND: u16 = 404;

/// An error answer of the cluster API.
#[derive(Debug)]
pub struct ErrorResponse {
    pub status: String,
    pub message: String,
    pub reason: String,
    pub code: u16,
}

/// Mathematical value of an `ErrorResponse`.
pub struct ErrorResponseView {
    pub status: Seq<char>,
    pub message: Seq<char>,
    pub reason: Seq<char>,
    pub code: u16,
}

impl View for ErrorResponse {
    type V = ErrorResponseView;

    open spec fn view(&self) -> ErrorResponseView {
        ErrorResponseView {
            status: self.status@,
            message: self.message@,
            reason: self.reason@,
            code: self.code,
        }
    }
}

/// A failed call to the cluster API.
#[derive(Debug)]
pub enum KubeError {
    /// The API answered, with an error.
    Api(ErrorResponse),
    /// The call failed in some other way; the text describes how.
    Other(String),
}

/// Mathematical value of a `KubeError`.
pub enum KubeErrorView {
    Api(ErrorResponseView),
    Other(Seq<char>),
}

impl KubeErrorView {
    /// The error is the API's answer that the object does not exist.
    pub open spec fn is_not_found(self) -> bool {
        self matches KubeErrorView::Api(response) && response.code == NOT_FOUND
    }
}

impl View for KubeError {
    type V = KubeErrorView;

    open spec fn view(&self) -> KubeErrorView {
        match *self {
            KubeError::Api(response) => KubeErrorView::Api(response@),
            KubeError::Other(text) => KubeErrorView::Other(text@),
        }
    }
}

impl KubeError {
    /// Tells whether the error is the API's answer that the object does not
    /// exist.
    pub fn is_not_found(&self) -> (found_nothing: bool)
        ensures
            found_nothing == self@.is_not_found(),
    {
        match self {
            KubeError::Api(response) => response.code == NOT_FOUND,
            KubeError::Other(_) => false,
        }
    }
}

/// Why a reconcile failed.
#[derive(Debug)]
pub enum Error {
    /// A call to the cluster API failed and the reconcile could not go on.
    UnknownKubeError { source: KubeError },
}

/// Mathematical value of an `Error`.
pub enum ErrorView {
    UnknownKubeError { source: KubeErrorView },
}

impl View for Error {
    type V = ErrorView;

    open spec fn view(&self) -> ErrorView {
        match *self {
            Error::UnknownKubeError { source } => ErrorView::UnknownKubeError { source: source@ },
        }
    }
}

impl From<KubeError> for Error {
    /// Wraps the failed call.
    fn from(source: KubeError) -> (error: Error)
        ensures
            error@ == (ErrorView::UnknownKubeError { source: source@ }),
    {
        Error::UnknownKubeError { source }
    }
}

impl vstd::std_specs::convert::FromSpecImpl<KubeError> for Error {
    open spec fn obeys_from_spec() -> bool {
        true
    }

    open spec fn from_spec(source: KubeError) -> Error {
        Error::UnknownKubeError { source }
    }
}

} // verus!
