use godot_rust_scaffold::features::{plan, FeatureStep, QolFeature};
use godot_rust_scaffold::paths::resolve;
use godot_rust_scaffold::session::{
    engine_tree_actions, extension_tree_actions, step_actions, Action, ProjectConfig, Stage,
};

fn demo_config(features: Vec<QolFeature>) -> ProjectConfig {
    ProjectConfig {
        root: ".".to_string(),
        godot_dir: "godot".to_string(),
        godot_name: "Demo".to_string(),
        rust_dir: "rust".to_string(),
        rust_name: "demo".to_string(),
        features,
    }
}

fn all_actions(config: &ProjectConfig) -> Vec<Action> {
    let paths = resolve(&config.root, &config.godot_dir, &config.rust_dir);
    let mut actions = engine_tree_actions(config, &paths);
    actions.extend(extension_tree_actions(config, &paths));
    for step in plan(&config.features) {
        actions.extend(step_actions(step, &paths, "/usr/bin/godot"));
    }
    actions
}

fn written(actions: &[Action]) -> Vec<(String, String)> {
    actions
        .iter()
        .filter_map(|a| match a {
            Action::WriteFile { path, contents } => Some((path.clone(), contents.clone())),
            _ => None,
        })
        .collect()
}

fn processes(actions: &[Action]) -> Vec<String> {
    actions
        .iter()
        .filter_map(|a| match a {
            Action::InitVersionControl { dir } => Some(dir.clone()),
            _ => None,
        })
        .collect()
}

#[test]
fn scenario_without_features() {
    let actions = all_actions(&demo_config(vec![]));
    let files = written(&actions);
    let names: Vec<&str> = files.iter().map(|(p, _)| p.as_str()).collect();
    assert_eq!(
        names,
        vec![
            "godot/.gitignore",
            "godot/project.godot",
            "godot/demo.gdextension",
            "godot/icon.svg",
            "rust/.gitignore",
            "rust/Cargo.toml",
            "rust/src/lib.rs"
        ]
    );
    assert!(processes(&actions).is_empty());
    let manifest = &files[2].1;
    assert!(!manifest.contains("reloadable"));
    assert!(manifest.contains("\"res://../rust/target/debug/libdemo.so\""));
}

#[test]
fn scenario_with_reloadable_and_git() {
    let actions = all_actions(&demo_config(vec![QolFeature::ReloadableExtension, QolFeature::Git]));
    let files = written(&actions);
    assert_eq!(files.len(), 7);
    let manifest = &files[2].1;
    assert_eq!(manifest.lines().filter(|l| *l == "reloadable = true").count(), 1);
    assert_eq!(processes(&actions), vec![".".to_string()]);
}

#[test]
fn directories_are_created_before_writes() {
    let actions = all_actions(&demo_config(vec![]));
    assert!(matches!(&actions[0], Action::CreateDirAll { path } if path == "godot"));
    assert!(matches!(&actions[5], Action::CreateDirAll { path } if path == "rust"));
    assert!(matches!(&actions[8], Action::CreateDir { path } if path == "rust/src"));
}

#[test]
fn editor_feature_files() {
    let paths = resolve("proj", "godot", "rust");
    let launch = step_actions(FeatureStep::WriteLaunchConfig, &paths, "/opt/godot");
    assert!(matches!(&launch[0], Action::CreateDirAll { path } if path == "proj/rust/.vscode"));
    match &launch[1] {
        Action::WriteFile { path, contents } => {
            assert_eq!(path, "proj/rust/.vscode/launch.json");
            assert!(contents.contains("\"cwd\": \"${workspaceFolder}/../godot\""));
            assert!(contents.contains("\"program\": \"/opt/godot\""));
        }
        _ => panic!("expected a file write"),
    }
    let ext = step_actions(FeatureStep::WriteExtensionRecommendations, &paths, "");
    assert!(matches!(&ext[1], Action::WriteFile { path, .. } if path == "proj/rust/.vscode/extensions.json"));
    let git = step_actions(FeatureStep::InitVersionControl, &paths, "");
    assert_eq!(processes(&git), vec!["proj".to_string()]);
}

#[test]
fn stages_run_in_line() {
    let mut s = Stage::CollectingConfig;
    let expected = [
        Stage::ResolvingPaths,
        Stage::WritingEngineTree,
        Stage::WritingExtensionTree,
        Stage::ApplyingFeatures,
        Stage::Done,
        Stage::Done,
    ];
    for e in expected {
        s = s.next(true);
        assert_eq!(s, e);
    }
}

#[test]
fn stages_fail_from_any_running_stage() {
    assert_eq!(Stage::CollectingConfig.next(false), Stage::Failed);
    assert_eq!(Stage::WritingExtensionTree.next(false), Stage::Failed);
    assert_eq!(Stage::ApplyingFeatures.next(false), Stage::Failed);
    assert_eq!(Stage::Failed.next(true), Stage::Failed);
    assert_eq!(Stage::Done.next(false), Stage::Done);
}
