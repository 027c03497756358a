use release::error::ReleaseError;
use release::manifest::{
    compose_manifest, needs_path_override, package_version, DependencyEntry, PRERELEASE_MARKER,
};

#[test]
fn package_version_reads_the_declared_version() {
    let manifest = "[package]\nname = \"pyembed\"\nversion = \"0.24.0\"\nedition = \"2021\"\n";
    assert_eq!(package_version(manifest), Ok("0.24.0".to_string()));
}

#[test]
fn package_version_keeps_the_prerelease_marker() {
    let manifest = "[package]\nname = \"pyembed\"\nversion = \"2.0.0-pre\"\n";
    assert_eq!(package_version(manifest), Ok("2.0.0-pre".to_string()));
}

#[test]
fn package_version_needs_a_package_table() {
    let manifest = "[workspace]\nmembers = [\"pyembed\"]\n";
    assert_eq!(package_version(manifest), Err(ReleaseError::VersionResolution));
    assert_eq!(package_version(""), Err(ReleaseError::VersionResolution));
}

#[test]
fn package_version_refuses_a_malformed_manifest() {
    assert_eq!(package_version("[package"), Err(ReleaseError::VersionResolution));
    assert_eq!(
        package_version("[package]\nname = \"pyembed\"\nversion = \"not a version\"\n"),
        Err(ReleaseError::VersionResolution)
    );
    assert_eq!(
        package_version("[package]\nname = \"pyembed\"\nversion = 3\n"),
        Err(ReleaseError::VersionResolution)
    );
}

#[test]
fn package_version_does_not_follow_a_workspace() {
    let manifest = "[package]\nname = \"pyembed\"\nversion.workspace = true\n";
    assert_eq!(package_version(manifest), Err(ReleaseError::VersionResolution));
}

#[test]
fn package_version_of_a_package_without_version_is_zero() {
    let manifest = "[package]\nname = \"pyembed\"\n";
    assert_eq!(package_version(manifest), Ok("0.0.0".to_string()));
}

#[test]
fn stable_version_gets_no_path() {
    assert!(!needs_path_override("1.2.3", false));
}

#[test]
fn prerelease_version_gets_a_path() {
    assert!(needs_path_override("1.2.3-pre", false));
}

#[test]
fn forced_path_is_always_added() {
    assert!(needs_path_override("1.2.3", true));
    assert!(needs_path_override("1.2.3-pre", true));
    assert!(needs_path_override("", true));
}

#[test]
fn prerelease_marker_counts_at_the_end_only() {
    assert_eq!(PRERELEASE_MARKER, "-pre");
    assert!(needs_path_override("-pre", false));
    assert!(!needs_path_override("", false));
    assert!(!needs_path_override("pre", false));
    assert!(!needs_path_override("1.2.3-pre1", false));
    assert!(!needs_path_override("1.2.3-pre.1", false));
    assert!(!needs_path_override("1.2.3-PRE", false));
    assert!(!needs_path_override("1.2.3-pre ", false));
}

#[test]
fn entry_of_a_stable_version_names_the_version_only() {
    let entry = DependencyEntry::for_component("pyembed", "0.24.0", "/repo/pyembed", false);
    assert_eq!(
        entry,
        DependencyEntry {
            name: "pyembed".to_string(),
            version: "0.24.0".to_string(),
            path: None,
            default_features: false,
        }
    );
    assert_eq!(
        entry.render(),
        "[dependencies.pyembed]\nversion = \"0.24.0\"\ndefault-features = false\n"
    );
}

#[test]
fn entry_of_a_prerelease_names_version_and_path() {
    let entry = DependencyEntry::for_component("pyembed", "2.0.0-pre", "/repo/pyembed", false);
    assert_eq!(entry.path, Some("/repo/pyembed".to_string()));
    assert_eq!(
        entry.render(),
        "[dependencies.pyembed]\nversion = \"2.0.0-pre\"\ndefault-features = false\npath = \"/repo/pyembed\"\n"
    );
}

#[test]
fn entry_with_forced_path_names_version_and_path() {
    let entry = DependencyEntry::for_component("pyembed", "0.24.0", "/repo/pyembed", true);
    assert_eq!(
        entry.render(),
        "[dependencies.pyembed]\nversion = \"0.24.0\"\ndefault-features = false\npath = \"/repo/pyembed\"\n"
    );
}

#[test]
fn entry_writes_the_feature_selection() {
    let entry = DependencyEntry {
        name: "other".to_string(),
        version: "1.0.0".to_string(),
        path: None,
        default_features: true,
    };
    assert_eq!(entry.render(), "[dependencies.other]\nversion = \"1.0.0\"\ndefault-features = true\n");
}

#[test]
fn manifest_is_skeleton_then_entry_then_template() {
    assert_eq!(
        compose_manifest("[package]\nname = \"p\"\n\n[dependencies]\n", "[dependencies.x]\n", "[profile.release]\n"),
        "[package]\nname = \"p\"\n\n[dependencies]\n[dependencies.x]\n[profile.release]\n"
    );
    assert_eq!(compose_manifest("", "", ""), "");
    assert_eq!(compose_manifest("a", "", "c"), "ac");
}
