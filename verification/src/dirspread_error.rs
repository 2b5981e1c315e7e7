//! Errors that end a spread.

use vstd::prelude::*;

verus! {

/// A message for the invoking user about what went wrong.
#[derive(Debug, Clone, PartialEq, Eq)]
pub struct DirspreadError {
    pub msg: String,
}

impl View for DirspreadError {
    type V = Seq<char>;

    open spec fn view(&self) -> Seq<char> {
        self.msg@
    }
}

impl DirspreadError {
    /// An error with the given message.
    pub fn new(msg: &str) -> (error: DirspreadError)
        ensures
            error@ == msg@,
    {
        DirspreadError { msg: msg.to_owned() }
    }

    /// The message, borrowed.
    pub fn description(&self) -> (text: &str)
        ensures
            text@ == self@,
    {
        self.msg.as_str()
    }

    /// The message as it is shown to the user.
    pub fn to_string(&self) -> (text: String)
        ensures
            text@ == self@,
    {
        self.msg.clone()
    }
}

/// Why a spread was given up. Every failure is final: nothing is retried,
/// and nothing that was already opened is closed again.
#[derive(Debug, Clone, PartialEq, Eq)]
pub enum Failure {
    /// The config file could not be read or is not a valid config.
    ConfigError(DirspreadError),
    /// The parent directory could not be listed.
    DirectoryResolutionError(DirspreadError),
    /// A command could not be started or did not succeed.
    ExternalProcessError(DirspreadError),
}

/// What a [`Failure`] says: its kind and its message.
pub enum FailureView {
    ConfigError(Seq<char>),
    DirectoryResolutionError(Seq<char>),
    ExternalProcessError(Seq<char>),
}

impl View for Failure {
    type V = FailureView;

    open spec fn view(&self) -> FailureView {
        match self {
            Failure::ConfigError(e) => FailureView::ConfigError(e@),
            Failure::DirectoryResolutionError(e) => FailureView::DirectoryResolutionError(e@),
            Failure::ExternalProcessError(e) => FailureView::ExternalProcessError(e@),
        }
    }
}

impl FailureView {
    /// The message that the failure carries.
    pub open spec fn message(self) -> Seq<char> {
        match self {
            FailureView::ConfigError(message) => message,
            FailureView::DirectoryResolutionError(message) => message,
            FailureView::ExternalProcessError(message) => message,
        }
    }
}

impl Failure {
    /// The error that the failure carries.
    pub fn error(&self) -> (error: &DirspreadError)
        ensures
            error@ == self@.message(),
    {
        match self {
            Failure::ConfigError(e) => e,
            Failure::DirectoryResolutionError(e) => e,
            Failure::ExternalProcessError(e) => e,
        }
    }
}

} // verus!
