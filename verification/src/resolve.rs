//! From the build tool's answer to a directory or a diagnostic.

use crate::error::{message_of, ErrorView, LocateError};
use crate::kind::LocationKind;
use crate::path::{has_parent, parent, parent_of};
use crate::query::{query_for, text_of, ExternalQuery};
use crate::text::{decode, decode_lossy, shown_text};
use vstd::prelude::*;
use vstd::slice::slice_to_vec;
use vstd::utf8::*;

verus! {

/// How the run of a query ended.
#[derive(Debug, PartialEq, Eq)]
pub enum ProcessOutcome {
    /// The program could not be started or run. Holds the operating system's
    /// error, as text.
    NotRun { error: String },
    /// The program ran to its end. Holds whether it reported success and what
    /// it wrote to its standard output and its standard error.
    Exited { success: bool, stdout: Vec<u8>, stderr: Vec<u8> },
}

/// A [`ProcessOutcome`] as plain values.
pub enum OutcomeView {
    NotRun { error: Seq<char> },
    Exited { success: bool, stdout: Seq<u8>, stderr: Seq<u8> },
}

impl View for ProcessOutcome {
    type V = OutcomeView;

    open spec fn view(&self) -> OutcomeView {
        match self {
            ProcessOutcome::NotRun { error } => OutcomeView::NotRun { error: error@ },
            ProcessOutcome::Exited { success, stdout, stderr } => OutcomeView::Exited {
                success: *success,
                stdout: stdout@,
                stderr: stderr@,
            },
        }
    }
}

impl OutcomeView {
    /// What a successful run printed is the path of a file in some directory:
    /// it has a parent. The build tool prints the path of a manifest, which
    /// always has one.
    pub open spec fn well_formed(self) -> bool {
        self matches OutcomeView::Exited { success: true, stdout, .. } ==> parent_of(stdout) is Some
    }
}

impl ProcessOutcome {
    /// Whether the outcome is well-formed.
    pub fn is_well_formed(&self) -> (yes: bool)
        ensures
            yes == self@.well_formed(),
    {
        match self {
            ProcessOutcome::NotRun { .. } => true,
            ProcessOutcome::Exited { success, stdout, .. } => !*success || has_parent(
                stdout.as_slice(),
            ),
        }
    }
}

/// The directory of a manifest: the parent of its path, as text if it is valid
/// UTF-8. If it is not, the error holds the directory's path as bytes; the
/// file's name and what follows it are no part of either.
pub open spec fn directory_of(manifest: Seq<u8>) -> Result<Seq<char>, ErrorView> {
    let dir = parent_of(manifest).unwrap();
    if valid_utf8(dir) {
        Ok(decode_utf8(dir))
    } else {
        Err(ErrorView::InvalidPath(dir))
    }
}

/// What the run of the query for `kind` resolves to. A tool that could not be
/// run and one that reported failure give an error with the query that was
/// tried; the failing tool's standard error is taken as [`shown_text`]. A
/// successful run gives the directory of the manifest that it printed.
pub open spec fn resolution(
    kind: LocationKind,
    program: Option<Seq<char>>,
    outcome: OutcomeView,
) -> Result<Seq<char>, ErrorView> {
    match outcome {
        OutcomeView::NotRun { error } => Err(
            ErrorView::ExecutionError { command: query_for(kind, program), error },
        ),
        OutcomeView::Exited { success, stdout, stderr } => if success {
            directory_of(stdout)
        } else {
            Err(
                ErrorView::CargoError {
                    command: query_for(kind, program),
                    error: shown_text(stderr),
                },
            )
        },
    }
}

/// The line that reports that `kind` could not be located, around the error's
/// own message.
pub open spec fn diagnostic_text(kind: LocationKind, message: Seq<char>) -> Seq<char> {
    "failed to locate "@ + kind.description_spec() + " ("@ + message + ")"@
}

/// What stands in place of the request for `kind`: the directory, as the text
/// of a string literal, or else the diagnostic to report where the request
/// was made.
pub open spec fn expansion(
    kind: LocationKind,
    program: Option<Seq<char>>,
    outcome: OutcomeView,
) -> Result<Seq<char>, Seq<char>> {
    match resolution(kind, program, outcome) {
        Ok(dir) => Ok(dir),
        Err(error) => Err(diagnostic_text(kind, message_of(error))),
    }
}

/// What [`resolve`] gives, as plain values.
pub open spec fn resolved_view(resolved: Result<String, LocateError>) -> Result<
    Seq<char>,
    ErrorView,
> {
    match resolved {
        Ok(dir) => Ok(dir@),
        Err(error) => Err(error@),
    }
}

/// What [`locate`] gives, as plain values.
pub open spec fn emitted_view(emitted: Result<String, String>) -> Result<Seq<char>, Seq<char>> {
    match emitted {
        Ok(dir) => Ok(dir@),
        Err(line) => Err(line@),
    }
}

/// Finds the directory of the manifest whose path is `manifest`.
pub fn find_directory(manifest: &[u8]) -> (found: Result<String, LocateError>)
    requires
        parent_of(manifest@) is Some,
    ensures
        resolved_view(found) == directory_of(manifest@),
{
    match parent(manifest) {
        Some(dir) => match decode(dir) {
            Some(text) => Ok(text.to_owned()),
            None => Err(LocateError::InvalidPath(slice_to_vec(dir))),
        },
        None => unreached(),
    }
}

/// Resolves the outcome of the query for `kind`, which was put to `program`
/// or, without one, to the default build tool.
pub fn resolve(kind: LocationKind, program: Option<String>, outcome: ProcessOutcome) -> (resolved:
    Result<String, LocateError>)
    requires
        outcome@.well_formed(),
    ensures
        resolved_view(resolved) == resolution(kind, text_of(program), outcome@),
{
    match outcome {
        ProcessOutcome::NotRun { error } => Err(
            LocateError::ExecutionError { command: ExternalQuery::new(kind, program), error },
        ),
        ProcessOutcome::Exited { success, stdout, stderr } => if success {
            find_directory(stdout.as_slice())
        } else {
            Err(
                LocateError::CargoError {
                    command: ExternalQuery::new(kind, program),
                    error: decode_lossy(stderr.as_slice()),
                },
            )
        },
    }
}

/// The line that reports that `kind` could not be located.
pub fn diagnostic(kind: LocationKind, message: &str) -> (line: String)
    ensures
        line@ == diagnostic_text(kind, message@),
{
    let mut line = String::from_str("failed to locate ");
    line.append(kind.description());
    line.append(" (");
    line.append(message);
    line.append(")");
    line
}

/// Locates `kind` from the outcome of its query: `Ok` with the directory, to
/// be handed on as a string literal, or `Err` with the diagnostic.
pub fn locate(kind: LocationKind, program: Option<String>, outcome: ProcessOutcome) -> (emitted:
    Result<String, String>)
    requires
        outcome@.well_formed(),
    ensures
        emitted_view(emitted) == expansion(kind, text_of(program), outcome@),
{
    match resolve(kind, program, outcome) {
        Ok(dir) => Ok(dir),
        Err(error) => {
            let message = error.message();
            Err(diagnostic(kind, message.as_str()))
        },
    }
}

} // verus!
