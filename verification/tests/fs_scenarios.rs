use std::path::Path;

use gph::config::{EnginePaths, GlobalConfig};
use gph::engine::{EngineType, GameEngine};
use gph::engines::unreal::UnrealEngine;
use gph::error::Error;
use gph::ProjectManager;

fn exact_dir(parent: &Path, name: &str) -> tempfile::TempDir {
    tempfile::Builder::new()
        .prefix(name)
        .rand_bytes(0)
        .tempdir_in(parent)
        .unwrap()
}

fn exact_file(parent: &Path, name: &str) -> tempfile::NamedTempFile {
    tempfile::Builder::new()
        .prefix(name)
        .rand_bytes(0)
        .tempfile_in(parent)
        .unwrap()
}

fn config_with_godot(path: &str) -> GlobalConfig {
    GlobalConfig {
        engine_paths: EnginePaths { unreal: None, unity: None, godot: Some(path.to_string()) },
        auth_token: None,
    }
}

#[test]
fn godot_tree_yields_one_project_with_one_active_backend() {
    let tmp = tempfile::TempDir::new().unwrap();
    let root = exact_dir(tmp.path(), "root");
    let game = exact_dir(root.path(), "game");
    let _marker = exact_file(game.path(), "project.godot");

    let mgr = ProjectManager::new(config_with_godot(tmp.path().to_str().unwrap()));
    assert_eq!(mgr.engine_count(), 1);
    assert!(mgr.get_engine("Unreal").is_none());
    assert_eq!(mgr.get_engine("godot").unwrap().engine_type(), EngineType::Godot);

    let ps = mgr.find_all_projects(root.path().to_str().unwrap()).unwrap();
    assert_eq!(ps.len(), 1);
    assert_eq!(ps[0].name, "game");
    assert_eq!(ps[0].path, game.path().to_str().unwrap());
    assert_eq!(ps[0].engine_type, EngineType::Godot);
}

#[test]
fn unity_tree_yields_the_project_directory() {
    let tmp = tempfile::TempDir::new().unwrap();
    let proj = exact_dir(tmp.path(), "proj");
    let _assets = exact_dir(proj.path(), "Assets");
    let _settings = exact_dir(proj.path(), "ProjectSettings");
    let other = exact_dir(tmp.path(), "other");
    let _assets_only = exact_dir(other.path(), "Assets");

    let mgr = ProjectManager::new(GlobalConfig {
        engine_paths: EnginePaths {
            unreal: None,
            unity: Some(tmp.path().to_str().unwrap().to_string()),
            godot: None,
        },
        auth_token: None,
    });
    let ps = mgr.find_all_projects(tmp.path().to_str().unwrap()).unwrap();
    assert_eq!(ps.len(), 1);
    assert_eq!(ps[0].name, "proj");
    assert_eq!(ps[0].path, proj.path().to_str().unwrap());
    assert_eq!(ps[0].engine_type, EngineType::Unity);
}

#[test]
fn unreal_detection_walks_a_real_tree() {
    let tmp = tempfile::TempDir::new().unwrap();
    let marker = tempfile::Builder::new()
        .suffix(".uproject")
        .tempfile_in(tmp.path())
        .unwrap();
    let engine = UnrealEngine::new("/opt/ue".to_string());
    let ps = engine.detect_projects(tmp.path().to_str().unwrap()).unwrap();
    assert_eq!(ps.len(), 1);
    assert_eq!(ps[0].path, marker.path().to_str().unwrap());
    assert_eq!(
        ps[0].name,
        marker.path().file_stem().unwrap().to_str().unwrap()
    );
    assert_eq!(ps[0].engine_type, EngineType::Unreal);
}

#[test]
fn unreal_detection_of_an_empty_tree_is_empty() {
    let tmp = tempfile::TempDir::new().unwrap();
    let engine = UnrealEngine::new("/opt/ue".to_string());
    let ps = engine.detect_projects(tmp.path().to_str().unwrap()).unwrap();
    assert!(ps.is_empty());
}

#[test]
fn detection_on_a_missing_root_is_an_io_error() {
    let engine = UnrealEngine::new("/opt/ue".to_string());
    let r = engine.detect_projects("/nonexistent/gph-search-root");
    assert!(matches!(r, Err(Error::Io { .. })));
}

#[test]
fn aggregation_follows_activation_order_not_walk_order() {
    let tmp = tempfile::TempDir::new().unwrap();
    let _marker = tempfile::Builder::new()
        .suffix(".uproject")
        .tempfile_in(tmp.path())
        .unwrap();
    let game = exact_dir(tmp.path(), "game");
    let _godot_marker = exact_file(game.path(), "project.godot");

    let path = tmp.path().to_str().unwrap().to_string();
    let mgr = ProjectManager::new(GlobalConfig {
        engine_paths: EnginePaths {
            unreal: Some(path.clone()),
            unity: None,
            godot: Some(path.clone()),
        },
        auth_token: None,
    });
    assert_eq!(mgr.engine_count(), 2);
    let ps = mgr.find_all_projects(&path).unwrap();
    assert_eq!(ps.len(), 2);
    assert_eq!(ps[0].engine_type, EngineType::Unreal);
    assert_eq!(ps[1].engine_type, EngineType::Godot);
    assert_eq!(ps[1].name, "game");
}

#[test]
fn already_initialized_guard_fires_only_when_the_directory_exists() {
    let tmp = tempfile::TempDir::new().unwrap();
    let project_dir = tmp.path().to_str().unwrap();

    let gph_dir = ProjectManager::check_uninitialized(project_dir).unwrap();
    assert_eq!(gph_dir, format!("{}/.gph", project_dir));

    let _existing = exact_dir(tmp.path(), ".gph");
    match ProjectManager::check_uninitialized(project_dir) {
        Err(Error::AlreadyInitialized { path }) => assert_eq!(path, gph_dir),
        other => panic!("expected AlreadyInitialized, got {:?}", other),
    }
}
