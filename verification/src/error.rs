//! The failures a single service can meet.

use vstd::prelude::*;
use vstd::string::StringExecFns;

verus! {

/// What can go wrong for one service. None of these ends a scan or a run
/// over several services: each is kept with the service it belongs to.
#[derive(Debug, PartialEq, Eq)]
pub enum ServiceError {
    /// The directory does not look like a supervised service.
    InvalidService,
    /// The status record could not be read or has the wrong shape.
    MalformedRecord,
    /// The process that the status record names is gone.
    ProcessNotFound,
    /// Changing the control link failed; holds the filesystem's own words.
    MutationFailed(String),
}

/// A `ServiceError` with its text as characters.
pub enum ErrorView {
    InvalidService,
    MalformedRecord,
    ProcessNotFound,
    MutationFailed(Seq<char>),
}

impl View for ServiceError {
    type V = ErrorView;

    open spec fn view(&self) -> ErrorView {
        match self {
            ServiceError::InvalidService => ErrorView::InvalidService,
            ServiceError::MalformedRecord => ErrorView::MalformedRecord,
            ServiceError::ProcessNotFound => ErrorView::ProcessNotFound,
            ServiceError::MutationFailed(reason) => ErrorView::MutationFailed(reason@),
        }
    }
}

impl Clone for ServiceError {
    fn clone(&self) -> (copy: ServiceError)
        ensures
            copy@ == self@,
    {
        match self {
            ServiceError::InvalidService => ServiceError::InvalidService,
            ServiceError::MalformedRecord => ServiceError::MalformedRecord,
            ServiceError::ProcessNotFound => ServiceError::ProcessNotFound,
            ServiceError::MutationFailed(reason) => ServiceError::MutationFailed(reason.clone()),
        }
    }
}

/// The view of an error that may be absent.
pub open spec fn error_view(error: Option<ServiceError>) -> Option<ErrorView> {
    match error {
        Some(e) => Some(e@),
        None => None,
    }
}

impl ErrorView {
    /// What `message` says of this error.
    pub open spec fn message(self) -> Seq<char> {
        match self {
            ErrorView::InvalidService => "service not valid"@,
            ErrorView::MalformedRecord => "malformed status record"@,
            ErrorView::ProcessNotFound => "process not found"@,
            ErrorView::MutationFailed(reason) => reason,
        }
    }
}

impl ServiceError {
    /// A line of text that says what went wrong. A failed mutation answers
    /// with the words it was given.
    pub fn message(&self) -> (text: String)
        ensures
            text@ == self@.message(),
    {
        match self {
            ServiceError::InvalidService => String::from_str("service not valid"),
            ServiceError::MalformedRecord => String::from_str("malformed status record"),
            ServiceError::ProcessNotFound => String::from_str("process not found"),
            ServiceError::MutationFailed(reason) => reason.clone(),
        }
    }
}

} // verus!
