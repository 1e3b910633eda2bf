//! What holds of resolution as a whole, proved from the definitions.

use crate::error::{execution_text, exit_text, ErrorView, LocateError};
use crate::kind::LocationKind;
use crate::path::{
    component_start, has_root, is_trimmed, lemma_parent_keeps_root,
    lemma_parent_of_file_in_directory, lemma_parent_stops_before_last_component, parent_of,
    trimmed_len, DOT, SEPARATOR,
};
use crate::query::{command_line, locate_args, query_for, spaced, QueryView};
use crate::resolve::{
    diagnostic_text, directory_of, expansion, resolution, resolved_view, OutcomeView,
};
use crate::text::{
    debug_quoting, lemma_middle_occurs, lemma_occurs_transitive, occurs_in, shown_text,
};
use vstd::prelude::*;
use vstd::utf8::*;

verus! {

/// Only the query for the workspace carries the flag that asks for it; but for
/// that flag the two queries are the same.
pub proof fn lemma_workspace_flag(program: Option<Seq<char>>)
    ensures
        query_for(LocationKind::WorkspaceDir, program).program == query_for(
            LocationKind::CrateDir,
            program,
        ).program,
        query_for(LocationKind::WorkspaceDir, program).args == query_for(
            LocationKind::CrateDir,
            program,
        ).args.push("--workspace"@),
        !query_for(LocationKind::CrateDir, program).args.contains("--workspace"@),
{
    reveal_strlit("locate-project");
    reveal_strlit("--message-format");
    reveal_strlit("plain");
    reveal_strlit("--workspace");
    let args = locate_args(LocationKind::CrateDir);
    assert forall|i: int| 0 <= i < args.len() implies args[i] != "--workspace"@ by {
        assert(args[i].len() != "--workspace"@.len());
    }
}

/// A program that the caller names is the one that is asked, whatever the
/// default is.
pub proof fn lemma_named_program_is_asked(kind: LocationKind, name: Seq<char>)
    ensures
        query_for(kind, Some(name)).program == name,
{
}

/// Resolving again gives the same: whatever two runs of `resolve` return for
/// one kind, one program and one outcome of the query, the two results hold
/// the same directory or the same error.
pub proof fn lemma_resolution_repeats(
    kind: LocationKind,
    program: Option<Seq<char>>,
    outcome: OutcomeView,
    first: Result<String, LocateError>,
    second: Result<String, LocateError>,
)
    requires
        resolved_view(first) == resolution(kind, program, outcome),
        resolved_view(second) == resolution(kind, program, outcome),
    ensures
        resolved_view(first) == resolved_view(second),
{
}

/// The directory depends on what the tool printed and on nothing else: not on
/// the kind, not on the program that was asked, not on what the tool wrote to
/// its standard error. So a crate outside any workspace, for which the tool
/// answers both queries alike, has one root.
pub proof fn lemma_directory_depends_on_answer_alone(
    kind: LocationKind,
    program: Option<Seq<char>>,
    stderr: Seq<u8>,
    other_kind: LocationKind,
    other_program: Option<Seq<char>>,
    other_stderr: Seq<u8>,
    stdout: Seq<u8>,
)
    ensures
        resolution(kind, program, OutcomeView::Exited { success: true, stdout, stderr })
            == resolution(
            other_kind,
            other_program,
            OutcomeView::Exited { success: true, stdout, stderr: other_stderr },
        ),
        resolution(kind, program, OutcomeView::Exited { success: true, stdout, stderr })
            == directory_of(stdout),
        expansion(
            kind,
            program,
            OutcomeView::Exited { success: true, stdout, stderr },
        ) matches Ok(dir) ==> expansion(
            other_kind,
            other_program,
            OutcomeView::Exited { success: true, stdout, stderr: other_stderr },
        ) == Ok::<Seq<char>, Seq<char>>(dir),
{
}

/// The diagnostic holds the error's message, and so whatever the message holds.
proof fn lemma_diagnostic_holds(kind: LocationKind, message: Seq<char>, needle: Seq<char>)
    requires
        occurs_in(message, needle),
    ensures
        occurs_in(diagnostic_text(kind, message), needle),
{
    lemma_middle_occurs("failed to locate "@ + kind.description_spec() + " ("@, message, ")"@);
    lemma_occurs_transitive(diagnostic_text(kind, message), message, needle);
}

/// The query as it is shown begins with the program, quoted.
proof fn lemma_command_line_holds_program(query: QueryView)
    ensures
        occurs_in(command_line(query), debug_quoting(query.program)),
{
    let rest = spaced(query.args.map_values(|arg: Seq<char>| debug_quoting(arg)));
    lemma_middle_occurs(Seq::empty(), debug_quoting(query.program), rest);
    assert(Seq::<char>::empty() + debug_quoting(query.program) + rest =~= command_line(query));
}

/// A tool that could not be run gives the error for that, with the query that
/// was tried and the system's error. The diagnostic holds the program that was
/// tried, the one that the caller named if there is one, in its quoted form,
/// and the system's error word for word.
pub proof fn lemma_unrun_tool_is_reported(
    kind: LocationKind,
    program: Option<Seq<char>>,
    error: Seq<char>,
)
    ensures
        resolution(kind, program, OutcomeView::NotRun { error }) == Err::<Seq<char>, ErrorView>(
            ErrorView::ExecutionError { command: query_for(kind, program), error },
        ),
        expansion(kind, program, OutcomeView::NotRun { error }) matches Err(line) && occurs_in(
            line,
            debug_quoting(query_for(kind, program).program),
        ) && occurs_in(line, error),
        program matches Some(name) ==> (expansion(
            kind,
            program,
            OutcomeView::NotRun { error },
        ) matches Err(line) && occurs_in(line, debug_quoting(name))),
{
    let query = query_for(kind, program);
    let shown = command_line(query);
    let message = execution_text(shown, error);
    lemma_middle_occurs("failed to execute cargo (command: "@ + shown + ", error: "@, error, ")"@);
    lemma_diagnostic_holds(kind, message, error);
    lemma_middle_occurs("failed to execute cargo (command: "@, shown, ", error: "@ + error + ")"@);
    assert("failed to execute cargo (command: "@ + shown + (", error: "@ + error + ")"@)
        =~= message);
    lemma_command_line_holds_program(query);
    lemma_occurs_transitive(message, shown, debug_quoting(query.program));
    lemma_diagnostic_holds(kind, message, debug_quoting(query.program));
}

/// A tool that ran and reported failure gives the error for that, whatever it
/// printed, with the query that was tried. The diagnostic holds what the tool
/// wrote to its standard error: word for word where that is valid UTF-8, and
/// decoded lossily where it is not.
pub proof fn lemma_failed_tool_is_reported(
    kind: LocationKind,
    program: Option<Seq<char>>,
    stdout: Seq<u8>,
    stderr: Seq<u8>,
)
    ensures
        resolution(kind, program, OutcomeView::Exited { success: false, stdout, stderr }) == Err::<
            Seq<char>,
            ErrorView,
        >(
            ErrorView::CargoError { command: query_for(kind, program), error: shown_text(stderr) },
        ),
        expansion(
            kind,
            program,
            OutcomeView::Exited { success: false, stdout, stderr },
        ) matches Err(line) && occurs_in(line, shown_text(stderr)),
        valid_utf8(stderr) ==> (expansion(
            kind,
            program,
            OutcomeView::Exited { success: false, stdout, stderr },
        ) matches Err(line) && occurs_in(line, decode_utf8(stderr))),
{
    let shown = command_line(query_for(kind, program));
    let error = shown_text(stderr);
    lemma_middle_occurs(
        "cargo exited with non-zero status (command: "@ + shown + ", error: "@,
        error,
        ")"@,
    );
    lemma_diagnostic_holds(kind, exit_text(shown, error), error);
}

/// A successful answer gives the directory as text exactly when the directory
/// is valid UTF-8, whatever the file's name is made of. Where it is not, the
/// error holds the directory's own bytes.
pub proof fn lemma_directory_or_its_bytes(stdout: Seq<u8>)
    requires
        parent_of(stdout) is Some,
    ensures
        directory_of(stdout) is Ok <==> valid_utf8(parent_of(stdout).unwrap()),
        directory_of(stdout) matches Ok(dir) ==> encode_utf8(dir) == parent_of(stdout).unwrap(),
        directory_of(stdout) matches Err(error) ==> error == ErrorView::InvalidPath(
            parent_of(stdout).unwrap(),
        ),
{
    let parent = parent_of(stdout).unwrap();
    if valid_utf8(parent) {
        decode_utf8_encode_utf8(parent);
    }
}

/// The answer for a file in a directory gives that directory: as text where
/// the directory's path is valid UTF-8, and otherwise as the bytes in the
/// error. The file's name, with a line break behind it or without, has no
/// part in either, and need not be valid UTF-8.
pub proof fn lemma_answer_gives_its_directory(dir: Seq<u8>, file: Seq<u8>)
    requires
        dir.len() > 0,
        is_trimmed(dir),
        file.len() > 0,
        forall|i: int| 0 <= i < file.len() ==> file[i] != SEPARATOR,
        file != seq![DOT],
    ensures
        parent_of(dir + seq![SEPARATOR] + file) == Some(dir),
        valid_utf8(dir) ==> directory_of(dir + seq![SEPARATOR] + file) == Ok::<
            Seq<char>,
            ErrorView,
        >(decode_utf8(dir)),
        !valid_utf8(dir) ==> directory_of(dir + seq![SEPARATOR] + file) == Err::<
            Seq<char>,
            ErrorView,
        >(ErrorView::InvalidPath(dir)),
{
    lemma_parent_of_file_in_directory(dir, file);
}

/// An answer that ends in anything but a separator or a dot, such as a line
/// feed or a carriage return, names a directory, and the directory holds
/// nothing of what follows the answer's last separator: its bytes are the
/// answer cut off at or before the start of the last component, so neither
/// the line break nor the file's name before it is among them. The same
/// holds of the path in the error, where the directory is not valid UTF-8.
pub proof fn lemma_line_break_is_dropped(stdout: Seq<u8>)
    requires
        stdout.len() > 0,
        stdout.last() != SEPARATOR,
        stdout.last() != DOT,
    ensures
        parent_of(stdout) matches Some(parent) && parent.len() <= component_start(
            stdout,
            stdout.len() as int,
        ) < stdout.len() && parent == stdout.take(parent.len() as int),
        directory_of(stdout) matches Ok(dir) ==> encode_utf8(dir) == parent_of(stdout).unwrap(),
        directory_of(stdout) matches Err(error) ==> error == ErrorView::InvalidPath(
            parent_of(stdout).unwrap(),
        ),
{
    let len = stdout.len() as int;
    assert(trimmed_len(stdout, len) == len);
    lemma_parent_stops_before_last_component(stdout);
    lemma_directory_or_its_bytes(stdout);
}

/// The directory of a manifest whose path begins at the root begins at the
/// root too: an absolute answer gives an absolute directory.
pub proof fn lemma_absolute_answer_gives_absolute_directory(stdout: Seq<u8>)
    requires
        has_root(stdout),
        parent_of(stdout) is Some,
    ensures
        directory_of(stdout) matches Ok(dir) ==> dir.len() > 0 && dir[0] == '/',
{
    lemma_parent_keeps_root(stdout);
    let parent = parent_of(stdout).unwrap();
    if valid_utf8(parent) {
        let first: u8 = parent[0];
        assert(first & 0x7f == 0x2f) by (bit_vector)
            requires
                first == 0x2f,
        ;
        assert(decode_first_scalar(parent) == 0x2f);
    }
}

} // verus!
