use gph::config::ProjectConfig;
use gph::engine::{EngineType, GameEngine, HostOs, ProjectInfo};
use gph::engines::godot::GodotEngine;
use gph::engines::unity::UnityEngine;
use gph::engines::unreal::UnrealEngine;
use gph::strutil::{join_path, str_ci_prefix, str_eq, str_has_suffix};

fn proj(name: &str, path: &str, engine_type: EngineType) -> ProjectInfo {
    ProjectInfo { name: name.to_string(), path: path.to_string(), engine_type }
}

fn with_build_command(cmd: &str) -> ProjectConfig {
    ProjectConfig { build_command: Some(cmd.to_string()), ..ProjectConfig::default() }
}

fn with_package_command(cmd: &str) -> ProjectConfig {
    ProjectConfig { package_command: Some(cmd.to_string()), ..ProjectConfig::default() }
}

fn strings(items: &[&str]) -> Vec<String> {
    items.iter().map(|s| s.to_string()).collect()
}

#[test]
fn unreal_build_invocation_on_unix() {
    let engine = UnrealEngine::new("/opt/ue".to_string());
    let info = proj("Game", "root/Game.uproject", EngineType::Unreal);
    let inv = engine.build_invocation(&info, &ProjectConfig::default(), HostOs::Unix).unwrap();
    assert_eq!(inv.program, "/opt/ue/Engine/Build/BatchFiles/RunUAT.sh");
    assert_eq!(
        inv.args,
        strings(&[
            "BuildCookRun",
            "-project=root/Game.uproject",
            "-build",
            "-clientconfig=Development",
            "-platform=Mac",
            "-nocompileeditor",
            "-unattended",
            "-stdout",
            "-utf8output",
        ])
    );
}

#[test]
fn unreal_build_invocation_on_windows() {
    let engine = UnrealEngine::new("C:/UE".to_string());
    let info = proj("Game", "root/Game.uproject", EngineType::Unreal);
    let inv = engine.build_invocation(&info, &ProjectConfig::default(), HostOs::Windows).unwrap();
    assert_eq!(inv.program, "C:/UE/Engine/Build/BatchFiles/RunUAT.bat");
    assert!(inv.args.contains(&"-platform=Win64".to_string()));
    assert!(!inv.args.contains(&"-platform=Mac".to_string()));
}

#[test]
fn unreal_build_command_override_replaces_the_invocation() {
    let engine = UnrealEngine::new("/opt/ue".to_string());
    let info = proj("Game", "root/Game.uproject", EngineType::Unreal);
    let inv = engine.build_invocation(&info, &with_build_command("make"), HostOs::Unix).unwrap();
    assert_eq!(inv.program, "make");
    assert_eq!(inv.args, strings(&["root/Game.uproject"]));
}

#[test]
fn unreal_package_invocation_archives_into_the_output_directory() {
    let engine = UnrealEngine::new("/opt/ue".to_string());
    let info = proj("Game", "root/Game.uproject", EngineType::Unreal);
    let inv = engine
        .package_invocation(&info, &ProjectConfig::default(), HostOs::Unix, "out")
        .unwrap();
    assert_eq!(inv.program, "/opt/ue/Engine/Build/BatchFiles/RunUAT.sh");
    assert_eq!(
        inv.args,
        strings(&[
            "BuildCookRun",
            "-project=root/Game.uproject",
            "-archive",
            "-archivedirectory=out",
            "-package",
            "-clientconfig=Development",
            "-platform=Mac",
            "-nocompileeditor",
            "-unattended",
            "-stdout",
            "-utf8output",
        ])
    );
}

#[test]
fn unity_and_godot_run_nothing_without_an_override() {
    let info = proj("proj", "root/proj", EngineType::Unity);
    let unity = UnityEngine::new("/opt/unity".to_string());
    let godot = GodotEngine::new("/usr/bin/godot".to_string());
    assert!(unity.build_invocation(&info, &ProjectConfig::default(), HostOs::Unix).is_none());
    assert!(godot.build_invocation(&info, &ProjectConfig::default(), HostOs::Unix).is_none());
    assert!(unity
        .package_invocation(&info, &ProjectConfig::default(), HostOs::Unix, "out")
        .is_none());
    assert!(godot
        .package_invocation(&info, &ProjectConfig::default(), HostOs::Unix, "out")
        .is_none());
}

#[test]
fn unity_and_godot_honor_command_overrides() {
    let info = proj("proj", "root/proj", EngineType::Unity);
    let unity = UnityEngine::new("/opt/unity".to_string());
    let build = unity.build_invocation(&info, &with_build_command("build.sh"), HostOs::Unix).unwrap();
    assert_eq!(build.program, "build.sh");
    assert_eq!(build.args, strings(&["root/proj"]));
    let godot = GodotEngine::new("/usr/bin/godot".to_string());
    let pack = godot
        .package_invocation(&info, &with_package_command("export.sh"), HostOs::Unix, "out")
        .unwrap();
    assert_eq!(pack.program, "export.sh");
    assert_eq!(pack.args, strings(&["root/proj", "out"]));
}

#[test]
fn artifact_paths_per_engine() {
    let info = proj("Game", "root/Game", EngineType::Unreal);
    let unreal = UnrealEngine::new("/opt/ue".to_string());
    let unity = UnityEngine::new("/opt/unity".to_string());
    let godot = GodotEngine::new("/usr/bin/godot".to_string());
    assert_eq!(unreal.artifact_path(&info, "out"), "out");
    assert_eq!(unity.artifact_path(&info, "out"), "out/Game");
    assert_eq!(godot.artifact_path(&info, "out"), "out/Game");
}

#[test]
fn engine_display_names() {
    assert_eq!(UnrealEngine::new("/u".to_string()).name(), "Unreal Engine");
    assert_eq!(UnityEngine::new("/u".to_string()).name(), "Unity");
    assert_eq!(GodotEngine::new("/g".to_string()).name(), "Godot");
}

#[test]
fn string_helpers_behave_character_for_character() {
    assert!(str_has_suffix("Game.uproject", ".uproject"));
    assert!(str_has_suffix(".uproject", ".uproject"));
    assert!(!str_has_suffix("uproject", ".uproject"));
    assert!(!str_has_suffix("Game.txt", ".uproject"));
    assert!(str_has_suffix("anything", ""));
    assert!(str_eq("project.godot", "project.godot"));
    assert!(!str_eq("project.godot", "Project.godot"));
    assert!(str_ci_prefix("UNreal", "unREAL Engine"));
    assert!(str_ci_prefix("", "Godot"));
    assert!(!str_ci_prefix("Godot4", "Godot"));
    assert_eq!(join_path("a", "b"), "a/b");
    assert_eq!(join_path("", "b"), "/b");
}
