//! The failures that lifecycle operations report to their caller.

use vstd::prelude::*;

verus! {

/// Why an operation gave up. Each variant carries the text that came with the
/// failure: the operating system's message, or what the helper printed.
#[derive(Debug, Clone, PartialEq, Eq)]
pub enum KpmError {
    /// The helper cannot be used: its version query failed or answered with an
    /// error text, or its file is missing or not executable.
    HelperUnavailable(String),
    /// The helper process could not be started.
    HelperExecution(String),
    /// The helper ran and exited with a failure status.
    HelperReported(String),
    /// The module directory could not be created.
    DirectoryCreation(String),
    /// The module directory could not be read.
    DirectoryAccess(String),
    /// The subscription to directory changes could not be set up.
    WatchFailed(String),
}

/// The mathematical counterpart of [`KpmError`].
pub enum KpmErrorView {
    HelperUnavailable(Seq<char>),
    HelperExecution(Seq<char>),
    HelperReported(Seq<char>),
    DirectoryCreation(Seq<char>),
    DirectoryAccess(Seq<char>),
    WatchFailed(Seq<char>),
}

impl KpmErrorView {
    /// The text carried by the error.
    pub open spec fn detail(self) -> Seq<char> {
        match self {
            KpmErrorView::HelperUnavailable(text) => text,
            KpmErrorView::HelperExecution(text) => text,
            KpmErrorView::HelperReported(text) => text,
            KpmErrorView::DirectoryCreation(text) => text,
            KpmErrorView::DirectoryAccess(text) => text,
            KpmErrorView::WatchFailed(text) => text,
        }
    }
}

impl View for KpmError {
    type V = KpmErrorView;

    open spec fn view(&self) -> KpmErrorView {
        match self {
            KpmError::HelperUnavailable(text) => KpmErrorView::HelperUnavailable(text@),
            KpmError::HelperExecution(text) => KpmErrorView::HelperExecution(text@),
            KpmError::HelperReported(text) => KpmErrorView::HelperReported(text@),
            KpmError::DirectoryCreation(text) => KpmErrorView::DirectoryCreation(text@),
            KpmError::DirectoryAccess(text) => KpmErrorView::DirectoryAccess(text@),
            KpmError::WatchFailed(text) => KpmErrorView::WatchFailed(text@),
        }
    }
}

impl KpmError {
    /// The text carried by the error.
    pub fn detail(&self) -> (text: &String)
        ensures
            text@ == self@.detail(),
    {
        match self {
            KpmError::HelperUnavailable(text) => text,
            KpmError::HelperExecution(text) => text,
            KpmError::HelperReported(text) => text,
            KpmError::DirectoryCreation(text) => text,
            KpmError::DirectoryAccess(text) => text,
            KpmError::WatchFailed(text) => text,
        }
    }
}

/// The view of the outcome of an operation.
pub open spec fn outcome_view(outcome: Result<(), KpmError>) -> Result<(), KpmErrorView> {
    match outcome {
        Ok(()) => Ok(()),
        Err(error) => Err(error@),
    }
}

} // verus!
