use release::error::ReleaseError;
use release::root::{after_primary, after_secondary, PrimaryProbe, RootStep, SecondaryProbe};
use std::path::PathBuf;

#[test]
fn repository_with_working_directory_settles_the_root() {
    assert_eq!(
        after_primary(PrimaryProbe::Repository { workdir: Some("/repo/".to_string()) }),
        RootStep::Resolved("/repo/".to_string())
    );
    assert_eq!(
        after_primary(PrimaryProbe::Repository { workdir: Some(PathBuf::from("/repo/")) }),
        RootStep::Resolved(PathBuf::from("/repo/"))
    );
}

#[test]
fn repository_without_working_directory_asks_the_second_discovery() {
    assert_eq!(
        after_primary(PrimaryProbe::<String>::Repository { workdir: None }),
        RootStep::AskSecondary
    );
}

#[test]
fn second_discovery_is_made_where_the_first_finds_nothing() {
    assert_eq!(after_primary(PrimaryProbe::<String>::Nothing), RootStep::AskSecondary);
}

#[test]
fn bare_repository_is_rooted_where_the_second_discovery_says() {
    let root = match after_primary(PrimaryProbe::<PathBuf>::Repository { workdir: None }) {
        RootStep::Resolved(root) => Ok(root),
        RootStep::AskSecondary => after_secondary(SecondaryProbe::Ended {
            success: true,
            output: "/home/me/repo\n".to_string(),
        })
        .map(PathBuf::from),
    };
    assert_eq!(root, Ok(PathBuf::from("/home/me/repo")));
}

#[test]
fn no_root_is_found_where_both_discoveries_fail() {
    let failures = [
        SecondaryProbe::NotRun,
        SecondaryProbe::Ended { success: false, output: "/home/me/repo\n".to_string() },
        SecondaryProbe::Ended { success: false, output: String::new() },
    ];
    for secondary in failures {
        for primary in [PrimaryProbe::<String>::Nothing, PrimaryProbe::Repository { workdir: None }] {
            assert_eq!(after_primary(primary), RootStep::AskSecondary);
        }
        assert_eq!(after_secondary(secondary), Err(ReleaseError::NoVcsRoot));
    }
}

#[test]
fn second_discovery_gives_the_root_without_white_space() {
    assert_eq!(
        after_secondary(SecondaryProbe::Ended { success: true, output: "/home/me/repo\n".to_string() }),
        Ok("/home/me/repo".to_string())
    );
    assert_eq!(
        after_secondary(SecondaryProbe::Ended {
            success: true,
            output: "  /home/me/my repo \r\n".to_string()
        }),
        Ok("/home/me/my repo".to_string())
    );
    assert_eq!(
        after_secondary(SecondaryProbe::Ended { success: true, output: String::new() }),
        Ok(String::new())
    );
}
