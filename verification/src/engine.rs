//! The common vocabulary of the engine layer: the fixed set of engine tags,
//! the record describing one discovered project, and the value types through
//! which build and package work is handed to an external process runner.

use vstd::prelude::*;

verus! {

use crate::config::{ProjectConfig, ProjectConfigView};
use crate::error::Error;
use crate::scan::{entries_view, FsEntry, FsEntryView};
use vstd::string::StringExecFns;

/// The closed set of engines this tool knows about.
#[derive(Clone, Copy, PartialEq, Eq, Structural, Debug, Hash)]
pub enum EngineType {
    Unreal,
    Unity,
    Godot,
}

impl EngineType {
    /// The fixed activation order: Unreal before Unity before Godot.
    pub open spec fn rank(self) -> int {
        match self {
            EngineType::Unreal => 0,
            EngineType::Unity => 1,
            EngineType::Godot => 2,
        }
    }
}

/// One discovered project: a human-readable name, the filesystem location of
/// its root (or of its primary descriptor file), and the engine that owns it.
#[derive(Debug, Clone)]
pub struct ProjectInfo {
    pub name: String,
    pub path: String,
    pub engine_type: EngineType,
}

/// The mathematical value of a `ProjectInfo`.
pub struct ProjectInfoView {
    pub name: Seq<char>,
    pub path: Seq<char>,
    pub engine_type: EngineType,
}

impl View for ProjectInfo {
    type V = ProjectInfoView;

    open spec fn view(&self) -> ProjectInfoView {
        ProjectInfoView { name: self.name@, path: self.path@, engine_type: self.engine_type }
    }
}

/// The views of a sequence of discovered projects.
pub open spec fn infos_view(s: Seq<ProjectInfo>) -> Seq<ProjectInfoView> {
    s.map_values(|p: ProjectInfo| p@)
}

/// The host platform, as far as the engine command lines care: Unreal's
/// automation tool has a batch-file entry point and a Windows platform
/// selector on Windows, and a shell-script entry point elsewhere.
#[derive(Clone, Copy, PartialEq, Eq, Structural, Debug)]
pub enum HostOs {
    Windows,
    Unix,
}

/// One external command line: a program and its arguments, ready to be run
/// by an unverified process runner.
#[derive(Debug, Clone)]
pub struct Invocation {
    pub program: String,
    pub args: Vec<String>,
}

/// The mathematical value of an `Invocation`.
pub struct InvocationView {
    pub program: Seq<char>,
    pub args: Seq<Seq<char>>,
}

impl View for Invocation {
    type V = InvocationView;

    open spec fn view(&self) -> InvocationView {
        InvocationView {
            program: self.program@,
            args: self.args@.map_values(|a: String| a@),
        }
    }
}

/// The view of an optional invocation; `None` means no external process is
/// needed for the operation.
pub open spec fn invocation_opt_view(o: Option<Invocation>) -> Option<InvocationView> {
    match o {
        Some(inv) => Some(inv@),
        None => None,
    }
}

/// What became of one external process run, as reported by the runner:
/// either the process completed (successfully or not), or it could not be
/// launched at all.
#[derive(Debug)]
pub enum RunOutcome {
    Completed { success: bool },
    LaunchFailed { message: String },
}

/// The platform selector handed to Unreal's automation tool, resolved from
/// the host operating system.
pub open spec fn platform_selector(host: HostOs) -> Seq<char> {
    match host {
        HostOs::Windows => "-platform=Win64"@,
        HostOs::Unix => "-platform=Mac"@,
    }
}

/// The executable counterpart of [`platform_selector`].
pub fn platform_selector_str(host: HostOs) -> (r: &'static str)
    ensures
        r@ == platform_selector(host),
{
    match host {
        HostOs::Windows => "-platform=Win64",
        HostOs::Unix => "-platform=Mac",
    }
}

/// Maps what became of an engine's external process onto the error
/// taxonomy: a clean exit is success, a nonzero exit is `BuildFailed`
/// naming the project, and a process that could not be launched at all is
/// `CommandExecution` naming the engine.
pub fn run_result(engine_name: &str, project_name: &str, outcome: RunOutcome) -> (r: Result<
    (),
    Error,
>)
    ensures
        (outcome matches RunOutcome::Completed { success } ==> {
            &&& success ==> r is Ok
            &&& !success ==> (r matches Err(Error::BuildFailed { project_path })
                && project_path@ == project_name@)
        }),
        (outcome matches RunOutcome::LaunchFailed { message } ==> (r matches Err(
            Error::CommandExecution { engine, message: m },
        ) && engine@ == engine_name@ && m@ == message@)),
{
    match outcome {
        RunOutcome::Completed { success } => {
            if success {
                Ok(())
            } else {
                Err(Error::BuildFailed { project_path: String::from_str(project_name) })
            }
        },
        RunOutcome::LaunchFailed { message } => {
            Err(Error::CommandExecution { engine: String::from_str(engine_name), message })
        },
    }
}

/// The capability every engine backend implements: naming itself, deciding
/// which walked entries are its projects, and describing the external
/// command lines that build and package them.
pub trait GameEngine: Sized {
    /// The tag this backend stamps on every project it reports.
    spec fn engine_type(&self) -> EngineType;

    /// The stable display name, used for logging and for case-insensitive
    /// prefix lookup by callers.
    spec fn display_name(&self) -> Seq<char>;

    /// Which projects this backend reads out of a sequence of walked
    /// entries.
    spec fn detected(&self, entries: Seq<FsEntryView>) -> Seq<ProjectInfoView>;

    /// The command line that builds `info`, if an external process is
    /// needed at all.
    spec fn build_invocation_spec(
        &self,
        info: ProjectInfoView,
        config: ProjectConfigView,
        host: HostOs,
    ) -> Option<InvocationView>;

    /// The command line that packages `info` into `output_dir`, if an
    /// external process is needed at all.
    spec fn package_invocation_spec(
        &self,
        info: ProjectInfoView,
        config: ProjectConfigView,
        host: HostOs,
        output_dir: Seq<char>,
    ) -> Option<InvocationView>;

    /// Where a packaged artifact is left for the caller to pick up.
    spec fn artifact_path_spec(&self, info: ProjectInfoView, output_dir: Seq<char>) -> Seq<char>;

    /// Every reported project carries this backend's own tag.
    proof fn detected_tagged(&self, entries: Seq<FsEntryView>)
        ensures
            forall|i: int|
                0 <= i < self.detected(entries).len() ==> (#[trigger] self.detected(
                    entries,
                )[i]).engine_type == self.engine_type(),
    ;

    /// The display name of the engine.
    fn name(&self) -> (r: &str)
        ensures
            r@ == self.display_name(),
    ;

    /// The pure half of detection: which of the walked entries are this
    /// backend's projects, in walk order.
    fn classify_entries(&self, entries: &Vec<FsEntry>) -> (r: Vec<ProjectInfo>)
        ensures
            infos_view(r@) == self.detected(entries_view(entries@)),
    ;

    /// Walks `search_dir` and reports every project of this backend found
    /// below it. Per-entry traversal errors are skipped; only a walk that
    /// cannot start at all is an error.
    fn detect_projects(&self, search_dir: &str) -> (r: Result<Vec<ProjectInfo>, Error>)
        ensures
            (r matches Ok(ps) ==> exists|es: Seq<FsEntryView>|
                infos_view(ps@) == self.detected(es)),
            (r matches Err(e) ==> e is Io),
    ;

    /// The command line that builds `info`, or `None` when no external
    /// process needs to run.
    fn build_invocation(&self, info: &ProjectInfo, config: &ProjectConfig, host: HostOs) -> (r:
        Option<Invocation>)
        ensures
            invocation_opt_view(r) == self.build_invocation_spec(info@, config@, host),
    ;

    /// The command line that packages `info` into `output_dir`, or `None`
    /// when no external process needs to run.
    fn package_invocation(
        &self,
        info: &ProjectInfo,
        config: &ProjectConfig,
        host: HostOs,
        output_dir: &str,
    ) -> (r: Option<Invocation>)
        ensures
            invocation_opt_view(r) == self.package_invocation_spec(
                info@,
                config@,
                host,
                output_dir@,
            ),
    ;

    /// Where the packaged artifact of `info` is left under `output_dir`.
    fn artifact_path(&self, info: &ProjectInfo, output_dir: &str) -> (r: String)
        ensures
            r@ == self.artifact_path_spec(info@, output_dir@),
    ;
}

} // verus!
