//! The ways in which a run can fail.

use crate::paths;
use crate::paths::path_debug;
use vstd::prelude::*;
use vstd::string::StringExecFns;

verus! {

/// Why a run failed. Failures that come from outside the dispatcher carry
/// the text that the failing party gave.
#[derive(Debug, Clone, PartialEq, Eq)]
pub enum RunError {
    /// The workload could not be classified.
    UnsupportedWorkload { path: String },
    /// The registry could not produce a required binary.
    FetchFailure { message: String },
    /// The log or temporary directory could not be created.
    DirectoryCreationFailure { message: String },
    /// The workload's absolute path has no final component to name the run by.
    InvalidWorkloadPath { path: String },
    /// The clock could not be read as a time since the epoch.
    ClockFailure { message: String },
    /// The sandbox reported a failure.
    ExecutionFailure { message: String },
    /// The registry could not clear the cache.
    CacheClearFailure { message: String },
}

/// A failure as contracts speak of it, with its texts as sequences of characters.
pub enum RunErrorView {
    UnsupportedWorkload { path: Seq<char> },
    FetchFailure { message: Seq<char> },
    DirectoryCreationFailure { message: Seq<char> },
    InvalidWorkloadPath { path: Seq<char> },
    ClockFailure { message: Seq<char> },
    ExecutionFailure { message: Seq<char> },
    CacheClearFailure { message: Seq<char> },
}

impl View for RunError {
    type V = RunErrorView;

    open spec fn view(&self) -> RunErrorView {
        match self {
            RunError::UnsupportedWorkload { path } => RunErrorView::UnsupportedWorkload {
                path: path@,
            },
            RunError::FetchFailure { message } => RunErrorView::FetchFailure { message: message@ },
            RunError::DirectoryCreationFailure { message } => {
                RunErrorView::DirectoryCreationFailure { message: message@ }
            },
            RunError::InvalidWorkloadPath { path } => RunErrorView::InvalidWorkloadPath {
                path: path@,
            },
            RunError::ClockFailure { message } => RunErrorView::ClockFailure { message: message@ },
            RunError::ExecutionFailure { message } => RunErrorView::ExecutionFailure {
                message: message@,
            },
            RunError::CacheClearFailure { message } => RunErrorView::CacheClearFailure {
                message: message@,
            },
        }
    }
}

impl RunErrorView {
    /// The text that describes a failure. A failure of the dispatcher's own
    /// names the path, quoted; one from outside is its text, unchanged.
    pub open spec fn message(self) -> Seq<char> {
        match self {
            RunErrorView::UnsupportedWorkload { path } => {
                "Could not determine workload type for "@ + path_debug(path)
            },
            RunErrorView::FetchFailure { message } => message,
            RunErrorView::DirectoryCreationFailure { message } => message,
            RunErrorView::InvalidWorkloadPath { path } => {
                "Invalid workload path: "@ + path_debug(path)
            },
            RunErrorView::ClockFailure { message } => message,
            RunErrorView::ExecutionFailure { message } => message,
            RunErrorView::CacheClearFailure { message } => message,
        }
    }
}

impl RunError {
    /// A copy of this failure.
    pub fn duplicate(&self) -> (copy: RunError)
        ensures
            copy@ == self@,
    {
        match self {
            RunError::UnsupportedWorkload { path } => RunError::UnsupportedWorkload {
                path: path.clone(),
            },
            RunError::FetchFailure { message } => RunError::FetchFailure {
                message: message.clone(),
            },
            RunError::DirectoryCreationFailure { message } => RunError::DirectoryCreationFailure {
                message: message.clone(),
            },
            RunError::InvalidWorkloadPath { path } => RunError::InvalidWorkloadPath {
                path: path.clone(),
            },
            RunError::ClockFailure { message } => RunError::ClockFailure {
                message: message.clone(),
            },
            RunError::ExecutionFailure { message } => RunError::ExecutionFailure {
                message: message.clone(),
            },
            RunError::CacheClearFailure { message } => RunError::CacheClearFailure {
                message: message.clone(),
            },
        }
    }

    /// The text that describes this failure.
    pub fn message(&self) -> (text: String)
        ensures
            text@ == self@.message(),
    {
        match self {
            RunError::UnsupportedWorkload { path } => {
                let quoted = paths::debug_format(path.as_str());
                String::from_str("Could not determine workload type for ").concat(quoted.as_str())
            },
            RunError::FetchFailure { message } => message.clone(),
            RunError::DirectoryCreationFailure { message } => message.clone(),
            RunError::InvalidWorkloadPath { path } => {
                let quoted = paths::debug_format(path.as_str());
                String::from_str("Invalid workload path: ").concat(quoted.as_str())
            },
            RunError::ClockFailure { message } => message.clone(),
            RunError::ExecutionFailure { message } => message.clone(),
            RunError::CacheClearFailure { message } => message.clone(),
        }
    }
}

/// The view of a run's result.
pub open spec fn spec_outcome(result: Result<(), RunError>) -> Result<(), RunErrorView> {
    match result {
        Ok(()) => Ok(()),
        Err(e) => Err(e@),
    }
}

} // verus!
