//! The ways a run can end other than by creating the link.

use vstd::prelude::*;
use vstd::string::*;

verus! {

/// Why a run ended without creating the link.
#[derive(Debug, Clone, PartialEq, Eq)]
pub enum HookError {
    /// A step could not be carried out, or the pair cannot be reconciled as it stands.
    ExecutionError(String),
    /// The symbolic link could not be created; holds what the system reported.
    SymlinkCreationError(String),
    /// Nothing was left to do.
    Skipping(String),
    /// Both paths hold data and nothing authorises a choice between them.
    FilesAlreadyExists,
    /// Neither path exists.
    PathsDontExist,
    /// The two paths end in different names and nothing authorises going on.
    DifferentNames,
    /// The user declined at a prompt.
    CancelledByUser,
    /// No relative path leads from the destination's directory to the source.
    PathDiff { source: String, destination: String },
    /// A diagnostic message.
    Debug(String),
}

/// A `HookError` with each string taken as its sequence of characters.
pub enum HookErrorView {
    ExecutionError(Seq<char>),
    SymlinkCreationError(Seq<char>),
    Skipping(Seq<char>),
    FilesAlreadyExists,
    PathsDontExist,
    DifferentNames,
    CancelledByUser,
    PathDiff { source: Seq<char>, destination: Seq<char> },
    Debug(Seq<char>),
}

impl View for HookError {
    type V = HookErrorView;

    open spec fn view(&self) -> HookErrorView {
        match self {
            HookError::ExecutionError(m) => HookErrorView::ExecutionError(m@),
            HookError::SymlinkCreationError(m) => HookErrorView::SymlinkCreationError(m@),
            HookError::Skipping(m) => HookErrorView::Skipping(m@),
            HookError::FilesAlreadyExists => HookErrorView::FilesAlreadyExists,
            HookError::PathsDontExist => HookErrorView::PathsDontExist,
            HookError::DifferentNames => HookErrorView::DifferentNames,
            HookError::CancelledByUser => HookErrorView::CancelledByUser,
            HookError::PathDiff { source, destination } => HookErrorView::PathDiff {
                source: source@,
                destination: destination@,
            },
            HookError::Debug(m) => HookErrorView::Debug(m@),
        }
    }
}

impl HookErrorView {
    /// The line that reports this error to a person.
    pub open spec fn message(self) -> Seq<char> {
        match self {
            HookErrorView::ExecutionError(m) => "Execution error: "@ + m,
            HookErrorView::SymlinkCreationError(m) => "Symlink creation error: "@ + m,
            HookErrorView::Skipping(m) => "Skipping: "@ + m,
            HookErrorView::FilesAlreadyExists =>
                "The source and destination paths already have files and --force or --interactive is not passed."@,
            HookErrorView::PathsDontExist => "The source and destination paths don't exist."@,
            HookErrorView::DifferentNames =>
                "The source and destination paths have different base names."@,
            HookErrorView::CancelledByUser => "The operation was cancelled by the user."@,
            HookErrorView::PathDiff { source, destination } =>
                "Couldn't compute difference between "@ + source + " and "@ + destination,
            HookErrorView::Debug(m) => "Debug: "@ + m,
        }
    }
}

/// A result with its error taken by its view.
pub open spec fn result_view<T>(result: Result<T, HookError>) -> Result<T, HookErrorView> {
    match result {
        Ok(value) => Ok(value),
        Err(error) => Err(error@),
    }
}

impl HookError {
    /// The line that reports this error to a person.
    pub fn message(&self) -> (text: String)
        ensures
            text@ == self@.message(),
    {
        match self {
            HookError::ExecutionError(m) => String::from_str("Execution error: ").concat(m.as_str()),
            HookError::SymlinkCreationError(m) => String::from_str(
                "Symlink creation error: ",
            ).concat(m.as_str()),
            HookError::Skipping(m) => String::from_str("Skipping: ").concat(m.as_str()),
            HookError::FilesAlreadyExists => String::from_str(
                "The source and destination paths already have files and --force or --interactive is not passed.",
            ),
            HookError::PathsDontExist => String::from_str(
                "The source and destination paths don't exist.",
            ),
            HookError::DifferentNames => String::from_str(
                "The source and destination paths have different base names.",
            ),
            HookError::CancelledByUser => String::from_str(
                "The operation was cancelled by the user.",
            ),
            HookError::PathDiff { source, destination } => String::from_str(
                "Couldn't compute difference between ",
            ).concat(source.as_str()).concat(" and ").concat(destination.as_str()),
            HookError::Debug(m) => String::from_str("Debug: ").concat(m.as_str()),
        }
    }
}

} // verus!
