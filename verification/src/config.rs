//! Configuration records, consumed as plain data. The global configuration
//! names where each engine's toolchain is installed; the per-project
//! configuration carries optional metadata and command overrides. Reading
//! and writing these records from disk is unverified plumbing that lives
//! outside this library; here they are ordinary values.

use vstd::prelude::*;

verus! {

use crate::engine::EngineType;

/// Where each supported engine's toolchain is installed, if configured.
/// An absent entry means the engine is simply unavailable.
#[derive(Debug)]
pub struct EnginePaths {
    pub unreal: Option<String>,
    pub unity: Option<String>,
    pub godot: Option<String>,
}

impl Default for EnginePaths {
    /// No engine path is configured by default.
    fn default() -> (r: Self)
        ensures
            r.unreal is None,
            r.unity is None,
            r.godot is None,
    {
        EnginePaths { unreal: None, unity: None, godot: None }
    }
}

/// The user-wide configuration: engine installation paths and an optional
/// authentication token (carried along, never consulted by this layer).
#[derive(Debug)]
pub struct GlobalConfig {
    pub engine_paths: EnginePaths,
    pub auth_token: Option<String>,
}

impl Default for GlobalConfig {
    /// No engine paths and no token by default.
    fn default() -> (r: Self)
        ensures
            r.engine_paths.unreal is None,
            r.engine_paths.unity is None,
            r.engine_paths.godot is None,
            r.auth_token is None,
    {
        GlobalConfig { engine_paths: Default::default(), auth_token: None }
    }
}

/// The project-local configuration: advisory metadata a backend may consult,
/// plus optional build and package command overrides.
#[derive(Debug, Clone)]
pub struct ProjectConfig {
    pub project_id: Option<String>,
    pub team_id: Option<String>,
    pub engine_type: Option<EngineType>,
    pub build_command: Option<String>,
    pub package_command: Option<String>,
}

/// The mathematical value of a `ProjectConfig`.
pub struct ProjectConfigView {
    pub project_id: Option<Seq<char>>,
    pub team_id: Option<Seq<char>>,
    pub engine_type: Option<EngineType>,
    pub build_command: Option<Seq<char>>,
    pub package_command: Option<Seq<char>>,
}

impl View for ProjectConfig {
    type V = ProjectConfigView;

    open spec fn view(&self) -> ProjectConfigView {
        ProjectConfigView {
            project_id: self.project_id.deep_view(),
            team_id: self.team_id.deep_view(),
            engine_type: self.engine_type,
            build_command: self.build_command.deep_view(),
            package_command: self.package_command.deep_view(),
        }
    }
}

impl Default for ProjectConfig {
    /// Every field is unset by default.
    fn default() -> (r: Self)
        ensures
            r.project_id is None,
            r.team_id is None,
            r.engine_type is None,
            r.build_command is None,
            r.package_command is None,
    {
        ProjectConfig {
            project_id: None,
            team_id: None,
            engine_type: None,
            build_command: None,
            package_command: None,
        }
    }
}

} // verus!
