//! The operations that an operator can ask for, by name.

use crate::error::ReleaseError;
use crate::text::same_text;
use vstd::prelude::*;

verus! {

/// The name of the operation that writes out the lock artifact of a newly
/// generated project.
pub const GENERATE_LOCK: &'static str = "generate-new-project-cargo-lock";

/// The name of the operation that brings the generated files kept in the
/// repository up to date.
pub const SYNCHRONIZE: &'static str = "synchronize-generated-files";

/// An operation.
#[derive(Clone, Copy, Debug, PartialEq, Eq, Structural)]
pub enum Subcommand {
    /// Generate the lock artifact and write it to the standard output.
    GenerateNewProjectCargoLock,
    /// Generate the lock artifact and store it in the repository.
    SynchronizeGeneratedFiles,
}

/// The operation that `name` names, if any.
pub open spec fn named(name: Seq<char>) -> Result<Subcommand, ReleaseError> {
    if name == GENERATE_LOCK@ {
        Ok(Subcommand::GenerateNewProjectCargoLock)
    } else if name == SYNCHRONIZE@ {
        Ok(Subcommand::SynchronizeGeneratedFiles)
    } else {
        Err(ReleaseError::InvalidSubcommand)
    }
}

impl Subcommand {
    /// The operation called `name`; no operation has another name.
    pub fn from_name(name: &str) -> (subcommand: Result<Subcommand, ReleaseError>)
        ensures
            subcommand == named(name@),
    {
        if same_text(name, GENERATE_LOCK) {
            Ok(Subcommand::GenerateNewProjectCargoLock)
        } else if same_text(name, SYNCHRONIZE) {
            Ok(Subcommand::SynchronizeGeneratedFiles)
        } else {
            Err(ReleaseError::InvalidSubcommand)
        }
    }

    /// The name by which the operation is asked for.
    pub fn name(&self) -> (name: &'static str)
        ensures
            named(name@) == Ok::<Subcommand, ReleaseError>(*self),
    {
        match self {
            Subcommand::GenerateNewProjectCargoLock => GENERATE_LOCK,
            Subcommand::SynchronizeGeneratedFiles => {
                proof {
                    reveal_strlit("generate-new-project-cargo-lock");
                    reveal_strlit("synchronize-generated-files");
                    assert(GENERATE_LOCK@.len() != SYNCHRONIZE@.len());
                }
                SYNCHRONIZE
            },
        }
    }
}

} // verus!
