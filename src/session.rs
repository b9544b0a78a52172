//! The session: the project's values, the file-system and process actions
//! that build the two trees and apply each feature, and the stages it runs through.
use vstd::prelude::*;
use vstd::string::*;
use crate::features::{is_selected, FeatureStep, QolFeature};
use crate::paths::ResolvedPaths;
use crate::templates::{
    cargo_toml_text,
    generate_cargo_toml,
    generate_gdextention_file,
    generate_godot_gitignore,
    generate_godot_project_file,
    generate_icon_svg,
    generate_launch_config,
    generate_lib_rs,
    generate_rust_gitignore,
    generate_vscode_extensions,
    launch_config_text,
    manifest_text,
    project_file_text,
    ENGINE_GITIGNORE,
    EXTENSIONS_JSON,
    EXTENSION_GITIGNORE,
    ICON_SVG,
    LIB_RS_STUB,
    SLASH,
};

verus! {

pub const GITIGNORE_FILE: &'static str = ".gitignore";

pub const PROJECT_FILE: &'static str = "project.godot";

pub const MANIFEST_SUFFIX: &'static str = ".gdextension";

pub const ICON_FILE: &'static str = "icon.svg";

pub const CARGO_FILE: &'static str = "Cargo.toml";

pub const SOURCE_DIR: &'static str = "src";

pub const LIB_FILE: &'static str = "lib.rs";

pub const EDITOR_DIR: &'static str = ".vscode";

pub const LAUNCH_FILE: &'static str = "launch.json";

pub const EXTENSIONS_FILE: &'static str = "extensions.json";

/// The values a session collects before anything is written.
pub struct ProjectConfig {
    /// Directory that holds both trees.
    pub root: String,
    /// Directory name of the engine tree, under the root.
    pub godot_dir: String,
    /// Name the engine shows for the project.
    pub godot_name: String,
    /// Directory name of the extension tree, under the root.
    pub rust_dir: String,
    /// Name of the extension library.
    pub rust_name: String,
    /// Selected optional features.
    pub features: Vec<QolFeature>,
}

/// One effect on the outside world, performed in order; the first failure ends the session.
pub enum Action {
    /// Create a directory and any missing parents.
    CreateDirAll { path: String },
    /// Create a directory whose parent exists.
    CreateDir { path: String },
    /// Write `contents` to the file at `path`.
    WriteFile { path: String, contents: String },
    /// Run version-control initialisation with `dir` as working directory and wait for it.
    InitVersionControl { dir: String },
}

/// An action with its strings as character sequences.
pub enum ActionModel {
    CreateDirAll(Seq<char>),
    CreateDir(Seq<char>),
    WriteFile(Seq<char>, Seq<char>),
    InitVersionControl(Seq<char>),
}

impl View for Action {
    type V = ActionModel;

    open spec fn view(&self) -> ActionModel {
        match self {
            Action::CreateDirAll { path } => ActionModel::CreateDirAll(path@),
            Action::CreateDir { path } => ActionModel::CreateDir(path@),
            Action::WriteFile { path, contents } => ActionModel::WriteFile(path@, contents@),
            Action::InitVersionControl { dir } => ActionModel::InitVersionControl(dir@),
        }
    }
}

pub open spec fn actions_view(v: Seq<Action>) -> Seq<ActionModel> {
    v.map_values(|a: Action| a@)
}

/// The path of `name` inside `dir`.
pub open spec fn file_in(dir: Seq<char>, name: Seq<char>) -> Seq<char> {
    dir + SLASH@ + name
}

/// Writing the engine tree at `path`: the directory, its ignore list, the
/// project descriptor, the extension manifest named after the library, and the icon.
pub open spec fn engine_tree_plan(
    path: Seq<char>,
    project_name: Seq<char>,
    lib_name: Seq<char>,
    reloadable: bool,
    depth: nat,
    extension_dir: Seq<char>,
) -> Seq<ActionModel> {
    seq![
        ActionModel::CreateDirAll(path),
        ActionModel::WriteFile(file_in(path, GITIGNORE_FILE@), ENGINE_GITIGNORE@),
        ActionModel::WriteFile(file_in(path, PROJECT_FILE@), project_file_text(project_name)),
        ActionModel::WriteFile(
            file_in(path, lib_name + MANIFEST_SUFFIX@),
            manifest_text(lib_name, reloadable, depth, extension_dir),
        ),
        ActionModel::WriteFile(file_in(path, ICON_FILE@), ICON_SVG@),
    ]
}

/// Writing the extension tree at `path`: the directory, its ignore list, the
/// build manifest, the source directory and the library's entry point.
pub open spec fn extension_tree_plan(path: Seq<char>, lib_name: Seq<char>) -> Seq<ActionModel> {
    seq![
        ActionModel::CreateDirAll(path),
        ActionModel::WriteFile(file_in(path, GITIGNORE_FILE@), EXTENSION_GITIGNORE@),
        ActionModel::WriteFile(file_in(path, CARGO_FILE@), cargo_toml_text(lib_name)),
        ActionModel::CreateDir(file_in(path, SOURCE_DIR@)),
        ActionModel::WriteFile(file_in(file_in(path, SOURCE_DIR@), LIB_FILE@), LIB_RS_STUB@),
    ]
}

/// The actions of one feature step: version control runs in the root; the
/// editor files go under the extension tree's editor directory.
pub open spec fn step_plan(
    step: FeatureStep,
    root: Seq<char>,
    extension_path: Seq<char>,
    engine_dir: Seq<char>,
    executable: Seq<char>,
) -> Seq<ActionModel> {
    let editor = file_in(extension_path, EDITOR_DIR@);
    match step {
        FeatureStep::InitVersionControl => seq![ActionModel::InitVersionControl(root)],
        FeatureStep::WriteLaunchConfig => seq![
            ActionModel::CreateDirAll(editor),
            ActionModel::WriteFile(file_in(editor, LAUNCH_FILE@), launch_config_text(engine_dir, executable)),
        ],
        FeatureStep::WriteExtensionRecommendations => seq![
            ActionModel::CreateDirAll(editor),
            ActionModel::WriteFile(file_in(editor, EXTENSIONS_FILE@), EXTENSIONS_JSON@),
        ],
    }
}

fn file_path(dir: &str, name: &str) -> (r: String)
    ensures
        r@ == file_in(dir@, name@),
{
    let mut r = String::from_str(dir);
    r.append(SLASH);
    r.append(name);
    r
}

/// The actions that write the engine tree.
pub fn engine_tree_actions(config: &ProjectConfig, paths: &ResolvedPaths) -> (r: Vec<Action>)
    ensures
        actions_view(r@) == engine_tree_plan(
            paths.engine_path@,
            config.godot_name@,
            config.rust_name@,
            config.features@.contains(QolFeature::ReloadableExtension),
            paths.depth as nat,
            paths.extension_dir@,
        ),
{
    let dir = paths.engine_path.as_str();
    let reloadable = is_selected(&config.features, QolFeature::ReloadableExtension);
    let mut manifest_name = String::from_str(config.rust_name.as_str());
    manifest_name.append(MANIFEST_SUFFIX);
    let mut r: Vec<Action> = Vec::new();
    r.push(Action::CreateDirAll { path: String::from_str(dir) });
    r.push(Action::WriteFile { path: file_path(dir, GITIGNORE_FILE), contents: generate_godot_gitignore() });
    r.push(
        Action::WriteFile {
            path: file_path(dir, PROJECT_FILE),
            contents: generate_godot_project_file(config.godot_name.as_str()),
        },
    );
    r.push(
        Action::WriteFile {
            path: file_path(dir, manifest_name.as_str()),
            contents: generate_gdextention_file(
                config.rust_name.as_str(),
                reloadable,
                paths.depth,
                paths.extension_dir.as_str(),
            ),
        },
    );
    r.push(Action::WriteFile { path: file_path(dir, ICON_FILE), contents: generate_icon_svg() });
    assert(actions_view(r@) =~= engine_tree_plan(
        paths.engine_path@,
        config.godot_name@,
        config.rust_name@,
        reloadable,
        paths.depth as nat,
        paths.extension_dir@,
    ));
    r
}

/// The actions that write the extension tree.
pub fn extension_tree_actions(config: &ProjectConfig, paths: &ResolvedPaths) -> (r: Vec<Action>)
    ensures
        actions_view(r@) == extension_tree_plan(paths.extension_path@, config.rust_name@),
{
    let dir = paths.extension_path.as_str();
    let source = file_path(dir, SOURCE_DIR);
    let mut r: Vec<Action> = Vec::new();
    r.push(Action::CreateDirAll { path: String::from_str(dir) });
    r.push(Action::WriteFile { path: file_path(dir, GITIGNORE_FILE), contents: generate_rust_gitignore() });
    r.push(
        Action::WriteFile {
            path: file_path(dir, CARGO_FILE),
            contents: generate_cargo_toml(config.rust_name.as_str()),
        },
    );
    r.push(Action::CreateDir { path: String::from_str(source.as_str()) });
    r.push(Action::WriteFile { path: file_path(source.as_str(), LIB_FILE), contents: generate_lib_rs() });
    assert(actions_view(r@) =~= extension_tree_plan(paths.extension_path@, config.rust_name@));
    r
}

/// The actions of one feature step; `executable` is the engine executable
/// the launch configuration runs, asked for only by that step.
pub fn step_actions(step: FeatureStep, paths: &ResolvedPaths, executable: &str) -> (r: Vec<Action>)
    ensures
        actions_view(r@) == step_plan(
            step,
            paths.root@,
            paths.extension_path@,
            paths.engine_dir@,
            executable@,
        ),
{
    let editor = file_path(paths.extension_path.as_str(), EDITOR_DIR);
    let mut r: Vec<Action> = Vec::new();
    match step {
        FeatureStep::InitVersionControl => {
            r.push(Action::InitVersionControl { dir: String::from_str(paths.root.as_str()) });
        },
        FeatureStep::WriteLaunchConfig => {
            r.push(Action::CreateDirAll { path: String::from_str(editor.as_str()) });
            r.push(
                Action::WriteFile {
                    path: file_path(editor.as_str(), LAUNCH_FILE),
                    contents: generate_launch_config(paths.engine_dir.as_str(), executable),
                },
            );
        },
        FeatureStep::WriteExtensionRecommendations => {
            r.push(Action::CreateDirAll { path: String::from_str(editor.as_str()) });
            r.push(
                Action::WriteFile {
                    path: file_path(editor.as_str(), EXTENSIONS_FILE),
                    contents: generate_vscode_extensions(),
                },
            );
        },
    }
    assert(actions_view(r@) =~= step_plan(
        step,
        paths.root@,
        paths.extension_path@,
        paths.engine_dir@,
        executable@,
    ));
    r
}

/// Where a session stands. Stages follow each other in a fixed line; a
/// failure anywhere ends in `Failed`.
#[derive(Clone, Copy, PartialEq, Eq, Structural, Debug)]
pub enum Stage {
    CollectingConfig,
    ResolvingPaths,
    WritingEngineTree,
    WritingExtensionTree,
    ApplyingFeatures,
    Done,
    Failed,
}

impl Stage {
    pub open spec fn is_terminal(self) -> bool {
        self == Stage::Done || self == Stage::Failed
    }

    pub open spec fn spec_next(self, succeeded: bool) -> Stage {
        if self.is_terminal() {
            self
        } else if !succeeded {
            Stage::Failed
        } else {
            match self {
                Stage::CollectingConfig => Stage::ResolvingPaths,
                Stage::ResolvingPaths => Stage::WritingEngineTree,
                Stage::WritingEngineTree => Stage::WritingExtensionTree,
                Stage::WritingExtensionTree => Stage::ApplyingFeatures,
                _ => Stage::Done,
            }
        }
    }

    /// The stage after this one's work `succeeded` or failed; a terminal
    /// stage stays as it is.
    #[verifier::when_used_as_spec(spec_next)]
    pub fn next(self, succeeded: bool) -> (r: Stage)
        ensures
            r == self.spec_next(succeeded),
    {
        match self {
            Stage::Done => Stage::Done,
            Stage::Failed => Stage::Failed,
            _ => {
                if !succeeded {
                    Stage::Failed
                } else {
                    match self {
                        Stage::CollectingConfig => Stage::ResolvingPaths,
                        Stage::ResolvingPaths => Stage::WritingEngineTree,
                        Stage::WritingEngineTree => Stage::WritingExtensionTree,
                        Stage::WritingExtensionTree => Stage::ApplyingFeatures,
                        _ => Stage::Done,
                    }
                }
            },
        }
    }
}

} // verus!
