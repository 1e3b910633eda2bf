//! Why a location could not be found, and how that is said.

use crate::query::{command_line, ExternalQuery, QueryView};
use crate::text::{decode_lossy, shown_text};
use vstd::prelude::*;

verus! {

/// Why a location could not be found.
#[derive(Debug, PartialEq, Eq)]
pub enum LocateError {
    /// The build tool could not be started or run. Holds the query that was
    /// tried and the operating system's error, as text.
    ExecutionError { command: ExternalQuery, error: String },
    /// The build tool ran and reported failure. Holds the query and what the
    /// tool wrote to its standard error.
    CargoError { command: ExternalQuery, error: String },
    /// The directory's path is not valid UTF-8. Holds that path, the
    /// directory's and not the manifest's, as the bytes that it is.
    InvalidPath(Vec<u8>),
}

/// A [`LocateError`] as plain values.
pub enum ErrorView {
    ExecutionError { command: QueryView, error: Seq<char> },
    CargoError { command: QueryView, error: Seq<char> },
    InvalidPath(Seq<u8>),
}

impl View for LocateError {
    type V = ErrorView;

    open spec fn view(&self) -> ErrorView {
        match self {
            LocateError::ExecutionError { command, error } => ErrorView::ExecutionError {
                command: command@,
                error: error@,
            },
            LocateError::CargoError { command, error } => ErrorView::CargoError {
                command: command@,
                error: error@,
            },
            LocateError::InvalidPath(path) => ErrorView::InvalidPath(path@),
        }
    }
}

/// What is said when the tool could not be run.
pub open spec fn execution_text(command: Seq<char>, error: Seq<char>) -> Seq<char> {
    "failed to execute cargo (command: "@ + command + ", error: "@ + error + ")"@
}

/// What is said when the tool reported failure.
pub open spec fn exit_text(command: Seq<char>, error: Seq<char>) -> Seq<char> {
    "cargo exited with non-zero status (command: "@ + command + ", error: "@ + error + ")"@
}

/// What is said when the directory's path is not valid UTF-8.
pub open spec fn encoding_text(path: Seq<char>) -> Seq<char> {
    "directory path contains invalid UTF-8 (path: "@ + path + ")"@
}

/// The message of an error. The query is shown as [`command_line`] gives it,
/// the tool's and the system's words as they are, the path as [`shown_text`].
pub open spec fn message_of(error: ErrorView) -> Seq<char> {
    match error {
        ErrorView::ExecutionError { command, error } => execution_text(
            command_line(command),
            error,
        ),
        ErrorView::CargoError { command, error } => exit_text(command_line(command), error),
        ErrorView::InvalidPath(path) => encoding_text(shown_text(path)),
    }
}

/// Puts `middle` between `before` and `after`.
fn enclose(before: &str, middle: &str, after: &str) -> (text: String)
    ensures
        text@ == before@ + middle@ + after@,
{
    let mut text = String::from_str(before);
    text.append(middle);
    text.append(after);
    text
}

/// The message for a tool that could not be run, from the query as it is
/// shown and the system's error.
pub fn execution_message(command: &str, error: &str) -> (message: String)
    ensures
        message@ == execution_text(command@, error@),
{
    let mut message = enclose("failed to execute cargo (command: ", command, ", error: ");
    message.append(error);
    message.append(")");
    message
}

/// The message for a tool that reported failure, from the query as it is
/// shown and the tool's own words.
pub fn exit_message(command: &str, error: &str) -> (message: String)
    ensures
        message@ == exit_text(command@, error@),
{
    let mut message = enclose("cargo exited with non-zero status (command: ", command, ", error: ");
    message.append(error);
    message.append(")");
    message
}

/// The message for a path that is not valid UTF-8, from the path as text.
pub fn encoding_message(path: &str) -> (message: String)
    ensures
        message@ == encoding_text(path@),
{
    enclose("directory path contains invalid UTF-8 (path: ", path, ")")
}

impl LocateError {
    /// The error's message, on one line unless a part of the error holds a
    /// line break.
    pub fn message(&self) -> (message: String)
        ensures
            message@ == message_of(self@),
    {
        match self {
            LocateError::ExecutionError { command, error } => {
                let line = command.command_line();
                execution_message(line.as_str(), error.as_str())
            },
            LocateError::CargoError { command, error } => {
                let line = command.command_line();
                exit_message(line.as_str(), error.as_str())
            },
            LocateError::InvalidPath(path) => {
                let shown = decode_lossy(path.as_slice());
                encoding_message(shown.as_str())
            },
        }
    }
}

} // verus!
