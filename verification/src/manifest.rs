//! Manifests: the version that a manifest declares, the dependency entry
//! that is added to the scaffold project's manifest, and the manifest that
//! results.

use crate::error::ReleaseError;
use crate::text::ends_with;
use vstd::prelude::*;
use vstd::string::*;

verus! {

/// `cargo_toml::Error`: why a text is no manifest.
#[verifier::external_type_specification]
#[verifier::external_body]
pub struct ExManifestError(cargo_toml::Error);

/// What `cargo_toml::Manifest::from_str` finds in the manifest `text`:
/// nothing where `text` is refused; else the version that the `[package]`
/// table sets, as `semver::Version` prints it, if there is such a table and its
/// version is set there and not left to a workspace.
pub uninterp spec fn manifest_version(text: Seq<char>) -> Option<Option<Seq<char>>>;

/// `cargo_toml::Manifest::from_str`, and of the manifest it returns the
/// `version` of `package`. A manifest without `[package]`, and one whose
/// version is `Inheritable::Inherited`, give no version.
#[verifier::external_body]
fn read_manifest_version(text: &str) -> (found: Result<Option<String>, cargo_toml::Error>)
    ensures
        (match found {
            Ok(Some(version)) => manifest_version(text@) == Some(Some(version@)),
            Ok(None) => manifest_version(text@) == Some(None::<Seq<char>>),
            Err(_) => manifest_version(text@) is None,
        }),
{
    match cargo_toml::Manifest::from_str(text)?.package {
        Some(cargo_toml::Package { version: cargo_toml::Inheritable::Set(version), .. }) => Ok(
            Some(version.to_string()),
        ),
        _ => Ok(None),
    }
}

/// The text that marks a version as a pre-release when the version ends with it.
pub const PRERELEASE_MARKER: &'static str = "-pre";

/// The version that the manifest `text` declares for its own package.
pub fn package_version(text: &str) -> (version: Result<String, ReleaseError>)
    ensures
        (match manifest_version(text@) {
            Some(Some(declared)) => version matches Ok(found) && found@ == declared,
            _ => version == Err::<String, ReleaseError>(ReleaseError::VersionResolution),
        }),
{
    match read_manifest_version(text) {
        Ok(Some(version)) => Ok(version),
        _ => Err(ReleaseError::VersionResolution),
    }
}

/// Whether `version` is that of a pre-release.
pub open spec fn is_prerelease(version: Seq<char>) -> bool {
    PRERELEASE_MARKER@.is_suffix_of(version)
}

/// Whether the dependency entry refers to the component's source directory:
/// for a pre-release, which is not published, and whenever the caller forces
/// it.
pub open spec fn path_override_applies(version: Seq<char>, force_path: bool) -> bool {
    force_path || is_prerelease(version)
}

/// Decides whether the dependency entry gets a local path.
pub fn needs_path_override(version: &str, force_path: bool) -> (applies: bool)
    ensures
        applies == path_override_applies(version@, force_path),
        force_path ==> applies,
{
    force_path || ends_with(version, PRERELEASE_MARKER)
}

/// The declaration of one dependency, as it is added to a manifest.
#[derive(Debug, PartialEq, Eq)]
pub struct DependencyEntry {
    /// The name of the component depended upon.
    pub name: String,
    /// The version that the dependency is pinned to.
    pub version: String,
    /// The component's source directory, where the dependency refers to it.
    pub path: Option<String>,
    /// Whether the component's default feature set is selected.
    pub default_features: bool,
}

/// The manifest fragment that declares a dependency on `name` at `version`,
/// with or without the default feature set, and with a reference to the
/// source directory `path` where there is one.
pub open spec fn entry_text(
    name: Seq<char>,
    version: Seq<char>,
    default_features: bool,
    path: Option<Seq<char>>,
) -> Seq<char> {
    "[dependencies."@ + name + "]\nversion = \""@ + version + "\"\ndefault-features = "@ + (if default_features {
        "true"@
    } else {
        "false"@
    }) + "\n"@ + (match path {
        Some(dir) => "path = \""@ + dir + "\"\n"@,
        None => Seq::<char>::empty(),
    })
}

/// The fragment for the component `name` at `version`, default feature set
/// disabled, which refers to `source_dir` exactly when the path override
/// applies.
pub open spec fn component_entry_text(
    name: Seq<char>,
    version: Seq<char>,
    source_dir: Seq<char>,
    force_path: bool,
) -> Seq<char> {
    entry_text(
        name,
        version,
        false,
        if path_override_applies(version, force_path) {
            Some(source_dir)
        } else {
            None
        },
    )
}

impl DependencyEntry {
    /// The manifest fragment that declares this dependency.
    pub open spec fn rendered(&self) -> Seq<char> {
        entry_text(
            self.name@,
            self.version@,
            self.default_features,
            match self.path {
                Some(path) => Some(path@),
                None => None,
            },
        )
    }

    /// The entry for the component `name` at `version`, with the default
    /// feature set disabled. It refers to `source_dir` exactly when `version`
    /// is a pre-release or `force_path` is set.
    pub fn for_component(name: &str, version: &str, source_dir: &str, force_path: bool) -> (entry:
        DependencyEntry)
        ensures
            entry.name@ == name@,
            entry.version@ == version@,
            !entry.default_features,
            (match entry.path {
                Some(path) => path_override_applies(version@, force_path) && path@ == source_dir@,
                None => !path_override_applies(version@, force_path),
            }),
            entry.rendered() == component_entry_text(name@, version@, source_dir@, force_path),
    {
        let path = if needs_path_override(version, force_path) {
            Some(source_dir.to_owned())
        } else {
            None
        };
        DependencyEntry { name: name.to_owned(), version: version.to_owned(), path, default_features: false }
    }

    /// Writes the entry as a manifest fragment.
    pub fn render(&self) -> (fragment: String)
        ensures
            fragment@ == self.rendered(),
    {
        let mut fragment = String::from_str("[dependencies.");
        fragment.append(self.name.as_str());
        fragment.append("]\nversion = \"");
        fragment.append(self.version.as_str());
        fragment.append("\"\ndefault-features = ");
        if self.default_features {
            fragment.append("true");
        } else {
            fragment.append("false");
        }
        fragment.append("\n");
        match &self.path {
            Some(path) => {
                fragment.append("path = \"");
                fragment.append(path.as_str());
                fragment.append("\"\n");
            },
            None => {
                assert(fragment@ + Seq::<char>::empty() =~= fragment@);
            },
        }
        fragment
    }
}

/// The scaffold project's manifest: the skeleton's manifest, then the
/// dependency entry, then the fixed template fragment.
pub open spec fn composed(skeleton: Seq<char>, entry: Seq<char>, template: Seq<char>) -> Seq<char> {
    skeleton + entry + template
}

/// Appends the dependency entry and the template fragment to the skeleton's
/// manifest.
pub fn compose_manifest(skeleton: &str, entry: &str, template: &str) -> (manifest: String)
    ensures
        manifest@ == composed(skeleton@, entry@, template@),
{
    let mut manifest = String::from_str(skeleton);
    manifest.append(entry);
    manifest.append(template);
    manifest
}

} // verus!
