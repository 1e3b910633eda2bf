//! Locating the root directory of a crate or of its workspace.
//!
//! The build tool is asked where the project's manifest lies; this library
//! builds that question, reads the answer and turns it into either the
//! directory's path or a diagnostic. Running the tool is left to the caller.

use vstd::prelude::*;

pub mod error;
pub mod kind;
pub mod laws;
pub mod path;
pub mod query;
pub mod resolve;
pub mod text;

pub use error::LocateError;
pub use kind::LocationKind;
pub use query::ExternalQuery;
pub use resolve::{locate, resolve, ProcessOutcome};

use query::text_of;
use resolve::{emitted_view, expansion};

verus! {

/// The root directory of the crate, from the outcome of the query for it. In
/// a workspace this is the member's own root, not the workspace's.
pub fn crate_dir(program: Option<String>, outcome: ProcessOutcome) -> (emitted: Result<
    String,
    String,
>)
    requires
        outcome@.well_formed(),
    ensures
        emitted_view(emitted) == expansion(LocationKind::CrateDir, text_of(program), outcome@),
{
    locate(LocationKind::CrateDir, program, outcome)
}

/// The root directory of the workspace, from the outcome of the query for it.
/// For a crate outside any workspace the tool answers as it does for the
/// crate, and so does this.
pub fn workspace_dir(program: Option<String>, outcome: ProcessOutcome) -> (emitted: Result<
    String,
    String,
>)
    requires
        outcome@.well_formed(),
    ensures
        emitted_view(emitted) == expansion(LocationKind::WorkspaceDir, text_of(program), outcome@),
{
    locate(LocationKind::WorkspaceDir, program, outcome)
}

} // verus!
