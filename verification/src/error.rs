//! The ways in which a release operation fails.

use vstd::prelude::*;

verus! {

/// Why a release operation stopped.
#[derive(Clone, Copy, Debug, PartialEq, Eq, Structural)]
pub enum ReleaseError {
    /// The program could not be started.
    Launch,
    /// The program ended with a status other than zero, and none of its output
    /// lines held a tolerated text.
    CommandFailed { exit_code: i32 },
    /// The sibling component's manifest is missing, malformed, or declares no
    /// version of its own.
    VersionResolution,
    /// The scaffold project's skeleton could not be generated.
    Scaffold,
    /// The lock artifact could not be produced, or what was produced is not a
    /// lock artifact.
    LockTool,
    /// No version-control root was found above the current directory.
    NoVcsRoot,
    /// A file or directory could not be read, written or created.
    Io,
    /// The name given is not that of an operation.
    InvalidSubcommand,
}

} // verus!
