use gph::config::{EnginePaths, GlobalConfig, ProjectConfig};
use gph::engine::{run_result, EngineType, ProjectInfo, RunOutcome};
use gph::error::Error;
use gph::{EngineAvailability, ProjectManager};

fn config_with(unreal: Option<&str>, unity: Option<&str>, godot: Option<&str>) -> GlobalConfig {
    GlobalConfig {
        engine_paths: EnginePaths {
            unreal: unreal.map(|s| s.to_string()),
            unity: unity.map(|s| s.to_string()),
            godot: godot.map(|s| s.to_string()),
        },
        auth_token: None,
    }
}

fn all_avail() -> EngineAvailability {
    EngineAvailability { unreal: true, unity: true, godot: true }
}

#[test]
fn activates_only_available_configured_engines() {
    let config = config_with(Some("/ue"), Some("/unity"), Some("/godot"));
    let avail = EngineAvailability { unreal: true, unity: false, godot: true };
    let mgr = ProjectManager::with_availability(config, avail);
    assert_eq!(mgr.engine_count(), 2);
    assert!(mgr.get_engine("unreal").is_some());
    assert!(mgr.get_engine("unity").is_none());
    assert!(mgr.get_engine("godot").is_some());
}

#[test]
fn unconfigured_engines_are_never_activated() {
    let config = config_with(None, None, Some("/godot"));
    let mgr = ProjectManager::with_availability(config, all_avail());
    assert_eq!(mgr.engine_count(), 1);
    assert!(mgr.get_engine("unreal").is_none());
    assert!(mgr.get_engine("unity").is_none());
    assert_eq!(mgr.get_engine("godot").unwrap().engine_type(), EngineType::Godot);
}

#[test]
fn lookup_is_case_insensitive_prefix_of_display_name() {
    let config = config_with(Some("/ue"), Some("/unity"), Some("/godot"));
    let mgr = ProjectManager::with_availability(config, all_avail());
    assert_eq!(mgr.get_engine("UNREAL").unwrap().engine_type(), EngineType::Unreal);
    assert_eq!(mgr.get_engine("unreal engine").unwrap().engine_type(), EngineType::Unreal);
    assert_eq!(mgr.get_engine("Unity").unwrap().engine_type(), EngineType::Unity);
    assert_eq!(mgr.get_engine("GODOT").unwrap().engine_type(), EngineType::Godot);
    assert!(mgr.get_engine("unknown").is_none());
    assert!(mgr.get_engine("unreal engine 5").is_none());
}

#[test]
fn lookup_prefers_the_first_backend_in_activation_order() {
    let config = config_with(Some("/ue"), Some("/unity"), None);
    let mgr = ProjectManager::with_availability(config, all_avail());
    // "un" is a prefix of both "Unreal Engine" and "Unity"; activation
    // order decides.
    assert_eq!(mgr.get_engine("un").unwrap().engine_type(), EngineType::Unreal);
    assert_eq!(mgr.get_engine("").unwrap().engine_type(), EngineType::Unreal);
}

#[test]
fn unity_lookup_depends_on_activation() {
    let active = ProjectManager::with_availability(
        config_with(None, Some("/unity"), None),
        all_avail(),
    );
    assert_eq!(active.get_engine("unity").unwrap().engine_type(), EngineType::Unity);

    let not_configured = ProjectManager::with_availability(config_with(None, None, None), all_avail());
    assert!(not_configured.get_engine("unity").is_none());

    let path_missing = ProjectManager::with_availability(
        config_with(None, Some("/unity"), None),
        EngineAvailability { unreal: false, unity: false, godot: false },
    );
    assert!(path_missing.get_engine("unity").is_none());
}

#[test]
fn new_without_configured_paths_activates_nothing() {
    let mgr = ProjectManager::new(GlobalConfig::default());
    assert_eq!(mgr.engine_count(), 0);
    assert!(mgr.get_engine("unreal").is_none());
}

#[test]
fn new_with_missing_paths_activates_nothing() {
    let config = config_with(
        Some("/nonexistent/gph-unreal"),
        Some("/nonexistent/gph-unity"),
        Some("/nonexistent/gph-godot"),
    );
    let mgr = ProjectManager::new(config);
    assert_eq!(mgr.engine_count(), 0);
    assert!(mgr.get_engine("godot").is_none());
}

#[test]
fn new_with_existing_path_activates_the_engine() {
    let tmp = tempfile::TempDir::new().unwrap();
    let path = tmp.path().to_str().unwrap();
    let mgr = ProjectManager::new(config_with(None, None, Some(path)));
    assert_eq!(mgr.engine_count(), 1);
    assert!(mgr.get_engine("Unreal").is_none());
    assert_eq!(mgr.get_engine("godot").unwrap().engine_type(), EngineType::Godot);
}

#[test]
fn find_all_projects_on_empty_directory_is_ok_and_empty() {
    let tmp = tempfile::TempDir::new().unwrap();
    let path = tmp.path().to_str().unwrap();
    let mgr = ProjectManager::new(config_with(Some(path), Some(path), Some(path)));
    assert_eq!(mgr.engine_count(), 3);
    let ps = mgr.find_all_projects(path).unwrap();
    assert!(ps.is_empty());
}

#[test]
fn find_all_projects_without_backends_is_ok_and_empty() {
    let mgr = ProjectManager::new(GlobalConfig::default());
    let ps = mgr.find_all_projects("/nonexistent/gph-anywhere").unwrap();
    assert!(ps.is_empty());
}

#[test]
fn initial_config_of_no_projects_leaves_engine_unset() {
    let cfg = ProjectManager::initial_config(&Vec::new());
    assert!(cfg.engine_type.is_none());
    assert!(cfg.project_id.is_none());
    assert!(cfg.team_id.is_none());
    assert!(cfg.build_command.is_none());
    assert!(cfg.package_command.is_none());
}

#[test]
fn initial_config_takes_the_first_detected_engine() {
    let projects = vec![
        ProjectInfo {
            name: "Game".to_string(),
            path: "root/Game.uproject".to_string(),
            engine_type: EngineType::Unreal,
        },
        ProjectInfo {
            name: "game".to_string(),
            path: "root/game".to_string(),
            engine_type: EngineType::Godot,
        },
    ];
    let cfg = ProjectManager::initial_config(&projects);
    assert_eq!(cfg.engine_type, Some(EngineType::Unreal));
    assert!(cfg.project_id.is_none());
}

#[test]
fn default_config_records_are_all_unset() {
    let g = GlobalConfig::default();
    assert!(g.engine_paths.unreal.is_none());
    assert!(g.engine_paths.unity.is_none());
    assert!(g.engine_paths.godot.is_none());
    assert!(g.auth_token.is_none());
    let p = ProjectConfig::default();
    assert!(p.engine_type.is_none());
}

#[test]
fn nonzero_exit_is_build_failed_not_command_execution() {
    let r = run_result("Unreal Engine", "MyGame", RunOutcome::Completed { success: false });
    match r {
        Err(Error::BuildFailed { project_path }) => assert_eq!(project_path, "MyGame"),
        other => panic!("expected BuildFailed, got {:?}", other),
    }
}

#[test]
fn clean_exit_is_success() {
    let r = run_result("Unreal Engine", "MyGame", RunOutcome::Completed { success: true });
    assert!(r.is_ok());
}

#[test]
fn launch_failure_is_command_execution() {
    let r = run_result(
        "Unreal Engine",
        "MyGame",
        RunOutcome::LaunchFailed { message: "no such file".to_string() },
    );
    match r {
        Err(Error::CommandExecution { engine, message }) => {
            assert_eq!(engine, "Unreal Engine");
            assert_eq!(message, "no such file");
        }
        other => panic!("expected CommandExecution, got {:?}", other),
    }
}
