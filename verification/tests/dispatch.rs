use release::dispatch::{Subcommand, GENERATE_LOCK, SYNCHRONIZE};
use release::error::ReleaseError;

#[test]
fn operations_are_found_by_name() {
    assert_eq!(
        Subcommand::from_name("generate-new-project-cargo-lock"),
        Ok(Subcommand::GenerateNewProjectCargoLock)
    );
    assert_eq!(
        Subcommand::from_name("synchronize-generated-files"),
        Ok(Subcommand::SynchronizeGeneratedFiles)
    );
}

#[test]
fn other_names_name_no_operation() {
    assert_eq!(Subcommand::from_name(""), Err(ReleaseError::InvalidSubcommand));
    assert_eq!(Subcommand::from_name("generate"), Err(ReleaseError::InvalidSubcommand));
    assert_eq!(
        Subcommand::from_name("Generate-New-Project-Cargo-Lock"),
        Err(ReleaseError::InvalidSubcommand)
    );
    assert_eq!(
        Subcommand::from_name("synchronize-generated-files "),
        Err(ReleaseError::InvalidSubcommand)
    );
}

#[test]
fn operations_answer_to_their_own_names() {
    assert_eq!(GENERATE_LOCK, "generate-new-project-cargo-lock");
    assert_eq!(SYNCHRONIZE, "synchronize-generated-files");
    for subcommand in [Subcommand::GenerateNewProjectCargoLock, Subcommand::SynchronizeGeneratedFiles] {
        assert_eq!(Subcommand::from_name(subcommand.name()), Ok(subcommand));
    }
}
