//! The question that is put to the build tool.

use crate::kind::LocationKind;
use crate::text::{debug_quoting, quote};
use vstd::prelude::*;

verus! {

/// A program and the arguments it is run with.
#[derive(Debug, PartialEq, Eq)]
pub struct ExternalQuery {
    /// The program's name or path.
    pub program: String,
    /// The arguments, in order.
    pub args: Vec<String>,
}

/// An [`ExternalQuery`] as plain text.
pub struct QueryView {
    pub program: Seq<char>,
    pub args: Seq<Seq<char>>,
}

/// The texts of a sequence of strings.
pub open spec fn texts(strings: Seq<String>) -> Seq<Seq<char>> {
    strings.map_values(|s: String| s@)
}

/// The text of a string that may be missing.
pub open spec fn text_of(string: Option<String>) -> Option<Seq<char>> {
    match string {
        Some(s) => Some(s@),
        None => None,
    }
}

impl View for ExternalQuery {
    type V = QueryView;

    open spec fn view(&self) -> QueryView {
        QueryView { program: self.program@, args: texts(self.args@) }
    }
}

/// The build tool's name where the caller gives no other.
pub open spec fn default_program() -> Seq<char> {
    "cargo"@
}

/// The arguments that ask for the manifest of `kind`, in the plain format:
/// the path and nothing else. The workspace is asked for by one more flag.
pub open spec fn locate_args(kind: LocationKind) -> Seq<Seq<char>> {
    let innermost = seq!["locate-project"@, "--message-format"@, "plain"@];
    match kind {
        LocationKind::CrateDir => innermost,
        LocationKind::WorkspaceDir => innermost.push("--workspace"@),
    }
}

/// The query for `kind`, put to `program` or, without one, to the default.
pub open spec fn query_for(kind: LocationKind, program: Option<Seq<char>>) -> QueryView {
    QueryView {
        program: match program {
            Some(name) => name,
            None => default_program(),
        },
        args: locate_args(kind),
    }
}

/// The words, each with a space before it.
pub open spec fn spaced(words: Seq<Seq<char>>) -> Seq<char>
    decreases words.len(),
{
    if words.len() == 0 {
        Seq::empty()
    } else {
        spaced(words.drop_last()) + seq![' '] + words.last()
    }
}

/// How a diagnostic shows a query: the program and each argument quoted on
/// its own, with single spaces between them.
pub open spec fn command_line(query: QueryView) -> Seq<char> {
    debug_quoting(query.program) + spaced(
        query.args.map_values(|arg: Seq<char>| debug_quoting(arg)),
    )
}

/// Puts `first` and then each of `rest`, with a space before it, into one text.
pub fn join_words(first: &str, rest: &Vec<String>) -> (line: String)
    ensures
        line@ == first@ + spaced(texts(rest@)),
{
    let mut line = String::from_str(first);
    let mut i: usize = 0;
    while i < rest.len()
        invariant
            i <= rest.len(),
            line@ == first@ + spaced(texts(rest@.take(i as int))),
        decreases rest.len() - i,
    {
        proof {
            reveal_strlit(" ");
            let done = texts(rest@.take(i as int));
            let next = texts(rest@.take(i + 1));
            assert(next.drop_last() =~= done);
            assert(next.last() == rest@[i as int]@);
            assert(" "@ =~= seq![' ']);
        }
        line.append(" ");
        line.append(rest[i].as_str());
        i += 1;
    }
    proof {
        assert(rest@.take(rest.len() as int) =~= rest@);
    }
    line
}

impl ExternalQuery {
    /// The query that asks `program`, or the default build tool where none is
    /// given, for the manifest of `kind`.
    pub fn new(kind: LocationKind, program: Option<String>) -> (query: ExternalQuery)
        ensures
            query@ == query_for(kind, text_of(program)),
    {
        let program = match program {
            Some(name) => name,
            None => String::from_str("cargo"),
        };
        let mut args: Vec<String> = Vec::new();
        args.push(String::from_str("locate-project"));
        args.push(String::from_str("--message-format"));
        args.push(String::from_str("plain"));
        match kind {
            LocationKind::CrateDir => {},
            LocationKind::WorkspaceDir => {
                args.push(String::from_str("--workspace"));
            },
        }
        proof {
            assert(texts(args@) =~= locate_args(kind));
        }
        ExternalQuery { program, args }
    }

    /// The query as a diagnostic shows it.
    pub fn command_line(&self) -> (line: String)
        ensures
            line@ == command_line(self@),
    {
        let program = quote(self.program.as_str());
        let mut quoted: Vec<String> = Vec::new();
        let mut i: usize = 0;
        while i < self.args.len()
            invariant
                i <= self.args.len(),
                quoted.len() == i,
                forall|j: int|
                    0 <= j < i ==> (#[trigger] quoted@[j])@ == debug_quoting(self.args@[j]@),
            decreases self.args.len() - i,
        {
            quoted.push(quote(self.args[i].as_str()));
            i += 1;
        }
        proof {
            assert(texts(quoted@) =~= self@.args.map_values(|arg: Seq<char>| debug_quoting(arg)));
        }
        join_words(program.as_str(), &quoted)
    }
}

} // verus!
