//! The two locations that can be asked for.

use vstd::prelude::*;

verus! {

/// Which root directory is wanted.
#[derive(Clone, Copy, Debug, PartialEq, Eq, Structural)]
pub enum LocationKind {
    /// The root of the crate being compiled.
    CrateDir,
    /// The root of the workspace that the crate belongs to.
    WorkspaceDir,
}

impl LocationKind {
    /// The words by which a diagnostic names this location.
    pub open spec fn description_spec(self) -> Seq<char> {
        match self {
            LocationKind::CrateDir => "crate directory"@,
            LocationKind::WorkspaceDir => "workspace directory"@,
        }
    }

    /// The words by which a diagnostic names this location.
    pub fn description(&self) -> (text: &'static str)
        ensures
            text@ == self.description_spec(),
    {
        match self {
            LocationKind::CrateDir => "crate directory",
            LocationKind::WorkspaceDir => "workspace directory",
        }
    }
}

} // verus!
