//! The generation of a lock artifact from a scaffold project.
//!
//! A throwaway project is created, the sibling component is declared as its
//! dependency, the toolchain locks the project's dependencies, and the lock
//! artifact is read back without the scaffold project's own record.
//!
//! The work on the file system and with the toolchain is done by a driver.
//! [`Generation`] decides: it names the next [`Action`], and takes what came of
//! it as an [`Event`].

use crate::error::ReleaseError;
use crate::executor::{CommandInvocation, ExecutionOutcome};
use crate::lock::{entries_of, listed, lock_text, readable_lock, sanitize_lock_text, sanitized};
use crate::manifest::{
    component_entry_text, compose_manifest, composed, manifest_version, package_version,
    DependencyEntry,
};
use vstd::prelude::*;

verus! {

/// The name of the scaffold project, and of its own record in the lock
/// artifact that the toolchain writes for it.
pub const PLACEHOLDER_NAME: &'static str = "placeholder_project";

/// The name of the sibling component that the scaffold project depends on.
pub const SIBLING_COMPONENT: &'static str = "pyembed";

/// The toolchain's program.
pub const TOOLCHAIN: &'static str = "cargo";

/// The name of a project's manifest.
pub const MANIFEST_FILE: &'static str = "Cargo.toml";

/// The name of a project's lock artifact.
pub const LOCK_FILE: &'static str = "Cargo.lock";

/// Where a location starts.
#[derive(Clone, Copy, Debug, PartialEq, Eq, Structural)]
pub enum Base {
    /// The root of the repository.
    Repository,
    /// The temporary directory that holds the scaffold project.
    Scaffold,
}

/// A file or a directory: the names that lead to it from its base.
#[derive(Debug, PartialEq, Eq)]
pub struct Location {
    pub base: Base,
    pub path: Vec<String>,
}

impl Location {
    /// The location is `path` under `base`.
    pub open spec fn is(&self, base: Base, path: Seq<Seq<char>>) -> bool {
        self.base == base && self.path.deep_view() == path
    }
}

/// The names that lead to the scaffold project's directory.
pub open spec fn project_path() -> Seq<Seq<char>> {
    seq![PLACEHOLDER_NAME@]
}

/// The names that lead to the sibling component's source directory.
pub open spec fn component_path() -> Seq<Seq<char>> {
    seq![SIBLING_COMPONENT@]
}

/// The names that lead to the sibling component's manifest.
pub open spec fn component_manifest_path() -> Seq<Seq<char>> {
    seq![SIBLING_COMPONENT@, MANIFEST_FILE@]
}

/// The names that lead to the scaffold project's manifest.
pub open spec fn project_manifest_path() -> Seq<Seq<char>> {
    seq![PLACEHOLDER_NAME@, MANIFEST_FILE@]
}

/// The names that lead to the scaffold project's lock artifact.
pub open spec fn project_lock_path() -> Seq<Seq<char>> {
    seq![PLACEHOLDER_NAME@, LOCK_FILE@]
}

/// The names that lead to the manifest fragment that every generated project
/// gets.
pub open spec fn template_path() -> Seq<Seq<char>> {
    seq!["pyoxidizer"@, "src"@, "templates"@, "cargo-extra.toml.hbs"@]
}

/// The names that lead to the place where the lock artifact is kept in the
/// repository.
pub open spec fn lock_destination_path() -> Seq<Seq<char>> {
    seq!["pyoxidizer"@, "src"@, "new-project-cargo.lock"@]
}

/// The scaffold project's directory, under the temporary directory.
pub fn project_dir() -> (location: Location)
    ensures
        location.is(Base::Scaffold, project_path()),
{
    let mut path: Vec<String> = Vec::new();
    path.push(PLACEHOLDER_NAME.to_owned());
    assert(path.deep_view() =~= project_path());
    Location { base: Base::Scaffold, path }
}

/// The sibling component's source directory, in the repository.
pub fn component_dir() -> (location: Location)
    ensures
        location.is(Base::Repository, component_path()),
{
    let mut path: Vec<String> = Vec::new();
    path.push(SIBLING_COMPONENT.to_owned());
    assert(path.deep_view() =~= component_path());
    Location { base: Base::Repository, path }
}

/// The sibling component's manifest, in the repository.
pub fn component_manifest() -> (location: Location)
    ensures
        location.is(Base::Repository, component_manifest_path()),
{
    let mut path: Vec<String> = Vec::new();
    path.push(SIBLING_COMPONENT.to_owned());
    path.push(MANIFEST_FILE.to_owned());
    assert(path.deep_view() =~= component_manifest_path());
    Location { base: Base::Repository, path }
}

/// The scaffold project's manifest.
pub fn project_manifest() -> (location: Location)
    ensures
        location.is(Base::Scaffold, project_manifest_path()),
{
    let mut path: Vec<String> = Vec::new();
    path.push(PLACEHOLDER_NAME.to_owned());
    path.push(MANIFEST_FILE.to_owned());
    assert(path.deep_view() =~= project_manifest_path());
    Location { base: Base::Scaffold, path }
}

/// The scaffold project's lock artifact.
pub fn project_lock() -> (location: Location)
    ensures
        location.is(Base::Scaffold, project_lock_path()),
{
    let mut path: Vec<String> = Vec::new();
    path.push(PLACEHOLDER_NAME.to_owned());
    path.push(LOCK_FILE.to_owned());
    assert(path.deep_view() =~= project_lock_path());
    Location { base: Base::Scaffold, path }
}

/// The manifest fragment that every generated project gets.
pub fn manifest_template() -> (location: Location)
    ensures
        location.is(Base::Repository, template_path()),
{
    let mut path: Vec<String> = Vec::new();
    path.push("pyoxidizer".to_owned());
    path.push("src".to_owned());
    path.push("templates".to_owned());
    path.push("cargo-extra.toml.hbs".to_owned());
    assert(path.deep_view() =~= template_path());
    Location { base: Base::Repository, path }
}

/// The place where the lock artifact is kept in the repository.
pub fn lock_destination() -> (location: Location)
    ensures
        location.is(Base::Repository, lock_destination_path()),
{
    let mut path: Vec<String> = Vec::new();
    path.push("pyoxidizer".to_owned());
    path.push("src".to_owned());
    path.push("new-project-cargo.lock".to_owned());
    assert(path.deep_view() =~= lock_destination_path());
    Location { base: Base::Repository, path }
}

/// `command` asks the toolchain for the skeleton of an executable project in
/// `project_dir`: it runs where the caller runs, and no failure of it is
/// tolerated.
pub open spec fn is_init_command(command: CommandInvocation, project_dir: Seq<char>) -> bool {
    &&& command.program@ == TOOLCHAIN@
    &&& command.arguments.deep_view() == seq!["init"@, "--bin"@, project_dir]
    &&& command.working_dir is None
    &&& command.label@ == TOOLCHAIN@
    &&& command.tolerated.len() == 0
}

/// `command` asks the toolchain to lock the dependencies of the project in
/// `project_dir` without reaching for the network: it runs in `project_dir`,
/// and no failure of it is tolerated.
pub open spec fn is_lock_command(command: CommandInvocation, project_dir: Seq<char>) -> bool {
    &&& command.program@ == TOOLCHAIN@
    &&& command.arguments.deep_view() == seq!["generate-lockfile"@, "--offline"@]
    &&& (command.working_dir matches Some(dir) && dir@ == project_dir)
    &&& command.label@ == TOOLCHAIN@
    &&& command.tolerated.len() == 0
}

/// The command that generates the scaffold project's skeleton.
pub fn init_command(project_dir: &str) -> (command: CommandInvocation)
    ensures
        is_init_command(command, project_dir@),
{
    let mut arguments: Vec<String> = Vec::new();
    arguments.push("init".to_owned());
    arguments.push("--bin".to_owned());
    arguments.push(project_dir.to_owned());
    assert(arguments.deep_view() =~= seq!["init"@, "--bin"@, project_dir@]);
    CommandInvocation {
        program: TOOLCHAIN.to_owned(),
        arguments,
        working_dir: None,
        label: TOOLCHAIN.to_owned(),
        tolerated: Vec::new(),
    }
}

/// The command that locks the scaffold project's dependencies.
pub fn lock_command(project_dir: &str) -> (command: CommandInvocation)
    ensures
        is_lock_command(command, project_dir@),
{
    let mut arguments: Vec<String> = Vec::new();
    arguments.push("generate-lockfile".to_owned());
    arguments.push("--offline".to_owned());
    assert(arguments.deep_view() =~= seq!["generate-lockfile"@, "--offline"@]);
    CommandInvocation {
        program: TOOLCHAIN.to_owned(),
        arguments,
        working_dir: Some(project_dir.to_owned()),
        label: TOOLCHAIN.to_owned(),
        tolerated: Vec::new(),
    }
}

/// What the driver is asked to do next.
#[derive(Debug, PartialEq, Eq)]
pub enum Action {
    /// Create a fresh temporary directory, to be removed when the generation
    /// ends, however it ends. The answer is [`Event::ScaffoldReady`] with the
    /// text form of `project` under that directory.
    CreateScaffold { project: Location },
    /// Run the command, echo its output, and answer with
    /// [`Event::CommandEnded`].
    Run(CommandInvocation),
    /// Read the file, and answer with [`Event::FileContents`].
    ReadFile(Location),
    /// Replace what the file holds by the text, and answer with
    /// [`Event::FileWritten`].
    WriteFile(Location, String),
}

/// What came of the action that was asked for.
#[derive(Debug, PartialEq, Eq)]
pub enum Event {
    /// The temporary directory exists; `project_dir` is the text form of the
    /// scaffold project's directory under it.
    ScaffoldReady { project_dir: String },
    /// The command was run to its end, or could not be. A command has
    /// succeeded where the outcome is given and says so.
    CommandEnded { verdict: Result<ExecutionOutcome, ReleaseError> },
    /// The file was read.
    FileContents { text: String },
    /// The file was written.
    FileWritten,
    /// The action could not be carried out.
    Failed,
}

/// A generation under way: what it waits for, and what it has gathered.
#[derive(Debug, PartialEq, Eq)]
pub enum Generation {
    /// Waits for the temporary directory.
    Scaffolding { component_dir: String, force_path: bool },
    /// Waits for the skeleton of the scaffold project.
    Initialising { component_dir: String, force_path: bool, project_dir: String },
    /// Waits for the sibling component's manifest.
    ResolvingVersion { component_dir: String, force_path: bool, project_dir: String },
    /// Waits for the skeleton's manifest; `entry` is the dependency entry.
    ReadingSkeleton { project_dir: String, entry: String },
    /// Waits for the template fragment; `skeleton` is the skeleton's manifest.
    ReadingTemplate { project_dir: String, skeleton: String, entry: String },
    /// Waits for the scaffold project's manifest to be written.
    WritingManifest { project_dir: String },
    /// Waits for the toolchain to lock the dependencies.
    Locking,
    /// Waits for the lock artifact.
    ReadingLock,
}

/// One step of a generation.
#[derive(Debug, PartialEq, Eq)]
pub enum Step {
    /// The generation goes on: the driver performs the action and hands the
    /// event to the generation given here.
    Perform(Generation, Action),
    /// The generation has ended, with the lock artifact or with the reason why
    /// there is none.
    Finish(Result<String, ReleaseError>),
}

/// The step ends the generation with `error`.
pub open spec fn fails_with(step: Step, error: ReleaseError) -> bool {
    step == Step::Finish(Err(error))
}

/// `step` is the step that a generation in `state` takes on `event`.
///
/// A generation goes through its stages in one order. At each stage one event
/// lets it go on; any other ends it, with the error of that stage. Nothing is
/// tried twice. A command lets the generation go on only where it succeeded:
/// an outcome that is no success ends it like a failure.
pub open spec fn follows(state: Generation, event: Event, step: Step) -> bool {
    match state {
        Generation::Scaffolding { component_dir, force_path } => match event {
            Event::ScaffoldReady { project_dir } => {
                &&& step matches Step::Perform(next, action)
                &&& next matches Generation::Initialising {
                    component_dir: next_component_dir,
                    force_path: next_force_path,
                    project_dir: next_project_dir,
                }
                &&& next_component_dir@ == component_dir@
                &&& next_force_path == force_path
                &&& next_project_dir@ == project_dir@
                &&& action matches Action::Run(command)
                &&& is_init_command(command, project_dir@)
            },
            _ => fails_with(step, ReleaseError::Io),
        },
        Generation::Initialising { component_dir, force_path, project_dir } => match event {
            Event::CommandEnded { verdict: Ok(outcome) } if outcome.success => {
                &&& step matches Step::Perform(next, action)
                &&& next matches Generation::ResolvingVersion {
                    component_dir: next_component_dir,
                    force_path: next_force_path,
                    project_dir: next_project_dir,
                }
                &&& next_component_dir@ == component_dir@
                &&& next_force_path == force_path
                &&& next_project_dir@ == project_dir@
                &&& action matches Action::ReadFile(location)
                &&& location.is(Base::Repository, component_manifest_path())
            },
            _ => fails_with(step, ReleaseError::Scaffold),
        },
        Generation::ResolvingVersion { component_dir, force_path, project_dir } => match event {
            Event::FileContents { text } => match manifest_version(text@) {
                Some(Some(version)) => {
                    &&& step matches Step::Perform(next, action)
                    &&& next matches Generation::ReadingSkeleton {
                        project_dir: next_project_dir,
                        entry,
                    }
                    &&& next_project_dir@ == project_dir@
                    &&& entry@ == component_entry_text(
                        SIBLING_COMPONENT@,
                        version,
                        component_dir@,
                        force_path,
                    )
                    &&& action matches Action::ReadFile(location)
                    &&& location.is(Base::Scaffold, project_manifest_path())
                },
                _ => fails_with(step, ReleaseError::VersionResolution),
            },
            _ => fails_with(step, ReleaseError::VersionResolution),
        },
        Generation::ReadingSkeleton { project_dir, entry } => match event {
            Event::FileContents { text } => {
                &&& step matches Step::Perform(next, action)
                &&& next matches Generation::ReadingTemplate {
                    project_dir: next_project_dir,
                    skeleton,
                    entry: next_entry,
                }
                &&& next_project_dir@ == project_dir@
                &&& skeleton@ == text@
                &&& next_entry@ == entry@
                &&& action matches Action::ReadFile(location)
                &&& location.is(Base::Repository, template_path())
            },
            _ => fails_with(step, ReleaseError::Io),
        },
        Generation::ReadingTemplate { project_dir, skeleton, entry } => match event {
            Event::FileContents { text } => {
                &&& step matches Step::Perform(next, action)
                &&& next matches Generation::WritingManifest { project_dir: next_project_dir }
                &&& next_project_dir@ == project_dir@
                &&& action matches Action::WriteFile(location, contents)
                &&& location.is(Base::Scaffold, project_manifest_path())
                &&& contents@ == composed(skeleton@, entry@, text@)
            },
            _ => fails_with(step, ReleaseError::Io),
        },
        Generation::WritingManifest { project_dir } => match event {
            Event::FileWritten => {
                &&& step matches Step::Perform(next, action)
                &&& next is Locking
                &&& action matches Action::Run(command)
                &&& is_lock_command(command, project_dir@)
            },
            _ => fails_with(step, ReleaseError::Io),
        },
        Generation::Locking => match event {
            Event::CommandEnded { verdict: Ok(outcome) } if outcome.success => {
                &&& step matches Step::Perform(next, action)
                &&& next is ReadingLock
                &&& action matches Action::ReadFile(location)
                &&& location.is(Base::Scaffold, project_lock_path())
            },
            _ => fails_with(step, ReleaseError::LockTool),
        },
        Generation::ReadingLock => match event {
            Event::FileContents { text } => match readable_lock(text@) {
                Some(lock) => {
                    &&& step matches Step::Finish(Ok(artifact))
                    &&& artifact@ == lock_text(
                        lock,
                        entries_of(sanitized(listed(lock), PLACEHOLDER_NAME@)),
                    )
                },
                None => fails_with(step, ReleaseError::LockTool),
            },
            _ => fails_with(step, ReleaseError::Io),
        },
    }
}

impl Generation {
    /// Begins a generation. `component_dir` is the text form of the sibling
    /// component's source directory; `force_path` makes the dependency entry
    /// refer to it whatever the component's version.
    ///
    /// The first thing asked of the driver is the temporary directory.
    pub fn begin(component_dir: &str, force_path: bool) -> (start: (Generation, Action))
        ensures
            (start.0 matches Generation::Scaffolding { component_dir: dir, force_path: force }
                && dir@ == component_dir@ && force == force_path),
            (start.1 matches Action::CreateScaffold { project } && project.is(
                Base::Scaffold,
                project_path(),
            )),
    {
        (
            Generation::Scaffolding { component_dir: component_dir.to_owned(), force_path },
            Action::CreateScaffold { project: project_dir() },
        )
    }

    /// Takes what came of the action asked for last, and gives the next step.
    pub fn step(self, event: Event) -> (step: Step)
        ensures
            follows(self, event, step),
    {
        match self {
            Generation::Scaffolding { component_dir, force_path } => match event {
                Event::ScaffoldReady { project_dir } => {
                    let command = init_command(project_dir.as_str());
                    Step::Perform(
                        Generation::Initialising { component_dir, force_path, project_dir },
                        Action::Run(command),
                    )
                },
                _ => Step::Finish(Err(ReleaseError::Io)),
            },
            Generation::Initialising { component_dir, force_path, project_dir } => match event {
                Event::CommandEnded { verdict: Ok(outcome) } if outcome.success => Step::Perform(
                    Generation::ResolvingVersion { component_dir, force_path, project_dir },
                    Action::ReadFile(component_manifest()),
                ),
                _ => Step::Finish(Err(ReleaseError::Scaffold)),
            },
            Generation::ResolvingVersion { component_dir, force_path, project_dir } => match event {
                Event::FileContents { text } => match package_version(text.as_str()) {
                    Ok(version) => {
                        let entry = DependencyEntry::for_component(
                            SIBLING_COMPONENT,
                            version.as_str(),
                            component_dir.as_str(),
                            force_path,
                        );
                        Step::Perform(
                            Generation::ReadingSkeleton { project_dir, entry: entry.render() },
                            Action::ReadFile(project_manifest()),
                        )
                    },
                    Err(_) => Step::Finish(Err(ReleaseError::VersionResolution)),
                },
                _ => Step::Finish(Err(ReleaseError::VersionResolution)),
            },
            Generation::ReadingSkeleton { project_dir, entry } => match event {
                Event::FileContents { text } => Step::Perform(
                    Generation::ReadingTemplate { project_dir, skeleton: text, entry },
                    Action::ReadFile(manifest_template()),
                ),
                _ => Step::Finish(Err(ReleaseError::Io)),
            },
            Generation::ReadingTemplate { project_dir, skeleton, entry } => match event {
                Event::FileContents { text } => {
                    let contents = compose_manifest(skeleton.as_str(), entry.as_str(), text.as_str());
                    Step::Perform(
                        Generation::WritingManifest { project_dir },
                        Action::WriteFile(project_manifest(), contents),
                    )
                },
                _ => Step::Finish(Err(ReleaseError::Io)),
            },
            Generation::WritingManifest { project_dir } => match event {
                Event::FileWritten => Step::Perform(
                    Generation::Locking,
                    Action::Run(lock_command(project_dir.as_str())),
                ),
                _ => Step::Finish(Err(ReleaseError::Io)),
            },
            Generation::Locking => match event {
                Event::CommandEnded { verdict: Ok(outcome) } if outcome.success => Step::Perform(
                    Generation::ReadingLock,
                    Action::ReadFile(project_lock()),
                ),
                _ => Step::Finish(Err(ReleaseError::LockTool)),
            },
            Generation::ReadingLock => match event {
                Event::FileContents { text } => Step::Finish(
                    sanitize_lock_text(text.as_str(), PLACEHOLDER_NAME),
                ),
                _ => Step::Finish(Err(ReleaseError::Io)),
            },
        }
    }
}

/// How far a generation has come: the number of its stage.
pub open spec fn stage_number(state: Generation) -> nat {
    match state {
        Generation::Scaffolding { .. } => 0,
        Generation::Initialising { .. } => 1,
        Generation::ResolvingVersion { .. } => 2,
        Generation::ReadingSkeleton { .. } => 3,
        Generation::ReadingTemplate { .. } => 4,
        Generation::WritingManifest { .. } => 5,
        Generation::Locking => 6,
        Generation::ReadingLock => 7,
    }
}

/// A generation that goes on goes on to the next stage: no stage is taken
/// twice or passed over, so that a generation ends after eight events at most.
pub proof fn lemma_generation_advances(state: Generation, event: Event, next: Generation, action: Action)
    requires
        follows(state, event, Step::Perform(next, action)),
    ensures
        stage_number(next) == stage_number(state) + 1,
{
}

/// A generation ends when an action fails: whatever its stage, on
/// [`Event::Failed`] it asks for nothing more and gives an error.
pub proof fn lemma_failure_ends_generation(state: Generation, step: Step)
    requires
        follows(state, Event::Failed, step),
    ensures
        step matches Step::Finish(Err(_)),
{
}

/// A generation gives a lock artifact at its last stage only: a step that
/// ends it with a text was taken on the contents of the lock artifact that the
/// toolchain wrote.
pub proof fn lemma_artifact_comes_last(state: Generation, event: Event, step: Step)
    requires
        follows(state, event, step),
        step matches Step::Finish(Ok(_)),
    ensures
        state is ReadingLock,
        event is FileContents,
{
}

} // verus!
