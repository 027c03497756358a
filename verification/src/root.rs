//! The root of the repository: which of two discoveries decides it.
//!
//! The discoveries are made elsewhere. The first is asked of the version
//! control system that the repository is expected to be kept in; the second,
//! of another one, where the first gives no root.

use crate::error::ReleaseError;
use crate::text::{trim, trimmed};
use vstd::prelude::*;

verus! {

/// What the first discovery found. `P` is the form in which the caller holds
/// a directory.
#[derive(Debug, PartialEq, Eq)]
pub enum PrimaryProbe<P> {
    /// A repository, and its working directory if it has one.
    Repository { workdir: Option<P> },
    /// No repository.
    Nothing,
}

/// What the second discovery found.
#[derive(Debug, PartialEq, Eq)]
pub enum SecondaryProbe {
    /// The discovery was run to its end: whether it succeeded, and what it
    /// wrote.
    Ended { success: bool, output: String },
    /// The discovery could not be run.
    NotRun,
}

/// What follows from the first discovery.
#[derive(Debug, PartialEq, Eq)]
pub enum RootStep<P> {
    /// The root is known.
    Resolved(P),
    /// The second discovery is to be made.
    AskSecondary,
}

/// Decides on the first discovery. A repository with a working directory
/// settles the root: it is that directory. A repository without one gives no
/// root, and neither does the lack of a repository: the second discovery is
/// made.
pub fn after_primary<P>(probe: PrimaryProbe<P>) -> (step: RootStep<P>)
    ensures
        (match probe {
            PrimaryProbe::Repository { workdir: Some(dir) } => step == RootStep::Resolved(dir),
            PrimaryProbe::Repository { workdir: None } => step is AskSecondary,
            PrimaryProbe::Nothing => step is AskSecondary,
        }),
{
    match probe {
        PrimaryProbe::Repository { workdir: Some(dir) } => RootStep::Resolved(dir),
        PrimaryProbe::Repository { workdir: None } => RootStep::AskSecondary,
        PrimaryProbe::Nothing => RootStep::AskSecondary,
    }
}

/// Decides on the second discovery: where it succeeded, the root is what it
/// wrote, without the white space around it; else no root was found.
pub fn after_secondary(probe: SecondaryProbe) -> (root: Result<String, ReleaseError>)
    ensures
        (match probe {
            SecondaryProbe::Ended { success: true, output } => root matches Ok(dir) && dir@
                == trimmed(output@),
            _ => root == Err::<String, ReleaseError>(ReleaseError::NoVcsRoot),
        }),
{
    match probe {
        SecondaryProbe::Ended { success: true, output } => Ok(trim(output.as_str())),
        _ => Err(ReleaseError::NoVcsRoot),
    }
}

} // verus!
