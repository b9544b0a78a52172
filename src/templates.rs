//! The text of every generated file, as pure functions of the project's values.
use vstd::prelude::*;
use vstd::string::*;

verus! {

pub const PROJECT_HEAD: &'static str = r#"; Engine configuration file.
; It's best edited using the editor UI and not directly,
; since the parameters that go here are not all obvious.
;
; Format:
;   [section] ; section goes between []
;   param=value ; assign values to parameters

config_version=5

[application]

config/name=""#;

pub const PROJECT_TAIL: &'static str = r#""
config/features=PackedStringArray("4.2", "GL Compatibility")
config/icon="res://icon.svg"

[rendering]

renderer/rendering_method="gl_compatibility"
renderer/rendering_method.mobile="gl_compatibility""#;

pub const MANIFEST_HEAD: &'static str = r#"[configuration]
entry_symbol = "gdext_rust_init"
compatibility_minimum = 4.1
"#;

/// The line that makes the extension reloadable.
pub const RELOADABLE_LINE: &'static str = "reloadable = true\n";

/// A blank line, then the header of the binary path entries.
pub const LIBRARIES_HEADER: &'static str = "\n[libraries]\n";

pub const LINUX_DEBUG: &'static str = "linux.debug.x86_64 =     ";

pub const LINUX_RELEASE: &'static str = "linux.release.x86_64 =   ";

pub const WINDOWS_DEBUG: &'static str = "windows.debug.x86_64 =   ";

pub const WINDOWS_RELEASE: &'static str = "windows.release.x86_64 = ";

pub const MACOS_DEBUG: &'static str = "macos.debug =            ";

pub const MACOS_RELEASE: &'static str = "macos.release =          ";

pub const MACOS_ARM_DEBUG: &'static str = "macos.debug.arm64 =      ";

pub const MACOS_ARM_RELEASE: &'static str = "macos.release.arm64 =    ";

pub const DEBUG: &'static str = "debug";

pub const RELEASE: &'static str = "release";

pub const LIB: &'static str = "lib";

pub const NO_PREFIX: &'static str = "";

pub const SO: &'static str = ".so";

pub const DLL: &'static str = ".dll";

pub const DYLIB: &'static str = ".dylib";

pub const RES_OPEN: &'static str = "\"res://";

pub const TARGET: &'static str = "/target/";

pub const SLASH: &'static str = "/";

pub const QUOTE: &'static str = "\"";

pub const NEWLINE: &'static str = "\n";

pub const UP: &'static str = "../";

pub const CARGO_HEAD: &'static str = r#"[package]
name = ""#;

pub const CARGO_TAIL: &'static str = r#""
version = "0.1.0"
edition = "2021"

[lib]
crate-type = ["cdylib"]  # Compile this crate to a dynamic C library.

[dependencies]
godot = { git = "https://github.com/godot-rust/gdext", branch = "master" }
"#;

pub const LAUNCH_HEAD: &'static str = r#"{
    "configurations": [
        {
            "name": "Debug Project (Godot 4)",
            "type": "lldb",
            "request": "launch",
            "preLaunchTask": "rust: cargo build",
            "cwd": "${workspaceFolder}/../"#;

pub const LAUNCH_MID: &'static str = r#"",
            "args": [
                "-e", // run editor (remove this to launch the scene directly)
                "-w", // windowed mode
            ],
            "program": ""#;

pub const LAUNCH_TAIL: &'static str = r#""
        }
    ]
}"#;

pub const ENGINE_GITIGNORE: &'static str = r#"# Godot 4+ specific ignores
.godot/
!.godot/extension_list.cfg

# Godot-specific ignores
.import/
export.cfg
export_presets.cfg

# Imported translations (automatically generated from CSV files)
*.translation

# Mono-specific ignores
.mono/
data_*/
mono_crash.*.json"#;

pub const EXTENSION_GITIGNORE: &'static str = r#"# Generated by Cargo
# will have compiled files and executables
debug/
target/

# Remove Cargo.lock from gitignore if creating an executable, leave it for libraries
# More information here https://doc.rust-lang.org/cargo/guide/cargo-toml-vs-cargo-lock.html
# Cargo.lock

# These are backup files generated by rustfmt
**/*.rs.bk

# MSVC Windows builds of rustc generate these, which store debugging information
*.pdb"#;

pub const ICON_SVG: &'static str = r##"<svg height="128" width="128" xmlns="http://www.w3.org/2000/svg"><rect x="2" y="2" width="124" height="124" rx="14" fill="#363d52" stroke="#212532" stroke-width="4"/><g transform="scale(.101) translate(122 122)"><g fill="#fff"><path d="M105 673v33q407 354 814 0v-33z"/><path fill="#478cbf" d="m105 673 152 14q12 1 15 14l4 67 132 10 8-61q2-11 15-15h162q13 4 15 15l8 61 132-10 4-67q3-13 15-14l152-14V427q30-39 56-81-35-59-83-108-43 20-82 47-40-37-88-64 7-51 8-102-59-28-123-42-26 43-46 89-49-7-98 0-20-46-46-89-64 14-123 42 1 51 8 102-48 27-88 64-39-27-82-47-48 49-83 108 26 42 56 81zm0 33v39c0 276 813 276 813 0v-39l-134 12-5 69q-2 10-14 13l-162 11q-12 0-16-11l-10-65H447l-10 65q-4 11-16 11l-162-11q-12-3-14-13l-5-69z"/><path d="M483 600c3 34 55 34 58 0v-86c-3-34-55-34-58 0z"/><circle cx="725" cy="526" r="90"/><circle cx="299" cy="526" r="90"/></g><g fill="#414042"><circle cx="307" cy="532" r="60"/><circle cx="717" cy="532" r="60"/></g></g></svg>"##;

pub const LIB_RS_STUB: &'static str = r#"use godot::prelude::*;

struct MyExtension;

#[gdextension]
unsafe impl ExtensionLibrary for MyExtension {}"#;

pub const EXTENSIONS_JSON: &'static str = r#"{
    "recommendations": [
        "rust-lang.rust",
        "vadimcn.vscode-lldb",
        "1YiB.rust-bundle",
        "tamasfe.even-better-toml"
    ]
}"#;

/// The engine project descriptor for a project shown as `name`.
pub open spec fn project_file_text(name: Seq<char>) -> Seq<char> {
    PROJECT_HEAD@ + name + PROJECT_TAIL@
}

/// `depth` times `../`.
pub open spec fn up_prefix(depth: nat) -> Seq<char>
    decreases depth,
{
    if depth == 0 {
        Seq::empty()
    } else {
        up_prefix((depth - 1) as nat) + UP@
    }
}

/// One binary path entry: `key"res://<up><dir>/target/<profile>/<pre><name><ext>"`.
#[verifier::opaque]
pub open spec fn library_line(
    key: Seq<char>,
    profile: Seq<char>,
    pre: Seq<char>,
    ext: Seq<char>,
    up: Seq<char>,
    dir: Seq<char>,
    name: Seq<char>,
) -> Seq<char> {
    key + RES_OPEN@ + up + dir + TARGET@ + profile + SLASH@ + pre + name + ext + QUOTE@
}

/// Number of binary path entries in the manifest.
pub const PLATFORM_COUNT: usize = 8;

/// Key, build profile, file prefix and file extension of entry `i`.
pub open spec fn platform(i: int) -> (Seq<char>, Seq<char>, Seq<char>, Seq<char>) {
    if i == 0 {
        (LINUX_DEBUG@, DEBUG@, LIB@, SO@)
    } else if i == 1 {
        (LINUX_RELEASE@, RELEASE@, LIB@, SO@)
    } else if i == 2 {
        (WINDOWS_DEBUG@, DEBUG@, NO_PREFIX@, DLL@)
    } else if i == 3 {
        (WINDOWS_RELEASE@, RELEASE@, NO_PREFIX@, DLL@)
    } else if i == 4 {
        (MACOS_DEBUG@, DEBUG@, LIB@, DYLIB@)
    } else if i == 5 {
        (MACOS_RELEASE@, RELEASE@, LIB@, DYLIB@)
    } else if i == 6 {
        (MACOS_ARM_DEBUG@, DEBUG@, LIB@, DYLIB@)
    } else {
        (MACOS_ARM_RELEASE@, RELEASE@, LIB@, DYLIB@)
    }
}

pub open spec fn entry(i: int, up: Seq<char>, dir: Seq<char>, name: Seq<char>) -> Seq<char> {
    let p = platform(i);
    library_line(p.0, p.1, p.2, p.3, up, dir, name)
}

/// The first `k` entries, separated by newlines.
pub open spec fn entries(k: nat, up: Seq<char>, dir: Seq<char>, name: Seq<char>) -> Seq<char>
    decreases k,
{
    if k == 0 {
        Seq::empty()
    } else if k == 1 {
        entry(0, up, dir, name)
    } else {
        entries((k - 1) as nat, up, dir, name) + NEWLINE@ + entry(k - 1, up, dir, name)
    }
}

/// The binary path entries, one per platform, architecture and build profile.
pub open spec fn library_lines(up: Seq<char>, dir: Seq<char>, name: Seq<char>) -> Seq<char> {
    entries(PLATFORM_COUNT as nat, up, dir, name)
}

/// The reloadable line when asked for, nothing otherwise.
pub open spec fn reloadable_part(reloadable: bool) -> Seq<char> {
    if reloadable {
        RELOADABLE_LINE@
    } else {
        Seq::empty()
    }
}

/// The extension manifest of library `name` built in `dir`, for an engine
/// tree `depth` levels below the root.
pub open spec fn manifest_text(name: Seq<char>, reloadable: bool, depth: nat, dir: Seq<char>) -> Seq<char> {
    MANIFEST_HEAD@ + reloadable_part(reloadable) + LIBRARIES_HEADER@ + library_lines(up_prefix(depth), dir, name)
}

/// The build manifest of library `name`.
pub open spec fn cargo_toml_text(name: Seq<char>) -> Seq<char> {
    CARGO_HEAD@ + name + CARGO_TAIL@
}

/// The editor launch configuration for engine tree `dir` and executable `exe`.
pub open spec fn launch_config_text(dir: Seq<char>, exe: Seq<char>) -> Seq<char> {
    LAUNCH_HEAD@ + dir + LAUNCH_MID@ + exe + LAUNCH_TAIL@
}

/// The reloadable line is in the manifest exactly when asked for: with the
/// flag the manifest is the one without it plus that line, placed right after
/// the configuration head; without it nothing stands there.
pub proof fn lemma_reloadable_line(name: Seq<char>, depth: nat, dir: Seq<char>)
    ensures
        manifest_text(name, true, depth, dir) == MANIFEST_HEAD@ + RELOADABLE_LINE@ + LIBRARIES_HEADER@
            + library_lines(up_prefix(depth), dir, name),
        manifest_text(name, false, depth, dir) == MANIFEST_HEAD@ + LIBRARIES_HEADER@ + library_lines(
            up_prefix(depth),
            dir,
            name,
        ),
{
    let e: Seq<char> = Seq::empty();
    assert(MANIFEST_HEAD@ + e =~= MANIFEST_HEAD@);
}

/// Every rendered text is a function of the renderer's arguments alone:
/// equal arguments give equal texts.
pub proof fn lemma_texts_determined(
    name1: Seq<char>,
    name2: Seq<char>,
    dir1: Seq<char>,
    dir2: Seq<char>,
    exe1: Seq<char>,
    exe2: Seq<char>,
    reloadable1: bool,
    reloadable2: bool,
    depth1: nat,
    depth2: nat,
)
    requires
        name1 == name2,
        dir1 == dir2,
        exe1 == exe2,
        reloadable1 == reloadable2,
        depth1 == depth2,
    ensures
        project_file_text(name1) == project_file_text(name2),
        manifest_text(name1, reloadable1, depth1, dir1) == manifest_text(name2, reloadable2, depth2, dir2),
        cargo_toml_text(name1) == cargo_toml_text(name2),
        launch_config_text(dir1, exe1) == launch_config_text(dir2, exe2),
{
}

/// Renders the engine project descriptor.
pub fn generate_godot_project_file(project_name: &str) -> (r: String)
    ensures
        r@ == project_file_text(project_name@),
{
    let mut r = String::from_str(PROJECT_HEAD);
    r.append(project_name);
    r.append(PROJECT_TAIL);
    r
}

fn up_levels(depth: usize) -> (r: String)
    ensures
        r@ == up_prefix(depth as nat),
{
    let mut r = String::new();
    let mut i: usize = 0;
    while i < depth
        invariant
            i <= depth,
            r@ == up_prefix(i as nat),
        decreases depth - i,
    {
        r.append(UP);
        i = i + 1;
    }
    r
}

fn platform_entry(i: usize) -> (r: (&'static str, &'static str, &'static str, &'static str))
    requires
        i < PLATFORM_COUNT,
    ensures
        (r.0@, r.1@, r.2@, r.3@) == platform(i as int),
{
    if i == 0 {
        (LINUX_DEBUG, DEBUG, LIB, SO)
    } else if i == 1 {
        (LINUX_RELEASE, RELEASE, LIB, SO)
    } else if i == 2 {
        (WINDOWS_DEBUG, DEBUG, NO_PREFIX, DLL)
    } else if i == 3 {
        (WINDOWS_RELEASE, RELEASE, NO_PREFIX, DLL)
    } else if i == 4 {
        (MACOS_DEBUG, DEBUG, LIB, DYLIB)
    } else if i == 5 {
        (MACOS_RELEASE, RELEASE, LIB, DYLIB)
    } else if i == 6 {
        (MACOS_ARM_DEBUG, DEBUG, LIB, DYLIB)
    } else {
        (MACOS_ARM_RELEASE, RELEASE, LIB, DYLIB)
    }
}

fn push_library_line(
    s: &mut String,
    key: &str,
    profile: &str,
    pre: &str,
    ext: &str,
    up: &str,
    dir: &str,
    name: &str,
)
    ensures
        final(s)@ == old(s)@ + library_line(key@, profile@, pre@, ext@, up@, dir@, name@),
{
    s.append(key);
    s.append(RES_OPEN);
    s.append(up);
    s.append(dir);
    s.append(TARGET);
    s.append(profile);
    s.append(SLASH);
    s.append(pre);
    s.append(name);
    s.append(ext);
    s.append(QUOTE);
    reveal(library_line);
    assert(final(s)@ =~= old(s)@ + library_line(key@, profile@, pre@, ext@, up@, dir@, name@));
}

/// Renders the extension manifest: the reloadable line only when `reloadable`,
/// and binary paths that climb `depth` levels from the engine tree and enter
/// the extension tree `rust_dir`.
pub fn generate_gdextention_file(project_name: &str, reloadable: bool, depth: usize, rust_dir: &str) -> (r: String)
    ensures
        r@ == manifest_text(project_name@, reloadable, depth as nat, rust_dir@),
{
    let mut r = String::from_str(MANIFEST_HEAD);
    if reloadable {
        r.append(RELOADABLE_LINE);
    }
    assert(r@ =~= MANIFEST_HEAD@ + reloadable_part(reloadable));
    r.append(LIBRARIES_HEADER);
    let ghost head = r@;
    let up = up_levels(depth);
    let mut i: usize = 0;
    while i < PLATFORM_COUNT
        invariant
            i <= PLATFORM_COUNT,
            r@ == head + entries(i as nat, up@, rust_dir@, project_name@),
        decreases PLATFORM_COUNT - i,
    {
        let (key, profile, pre, ext) = platform_entry(i);
        if i > 0 {
            r.append(NEWLINE);
        }
        push_library_line(&mut r, key, profile, pre, ext, up.as_str(), rust_dir, project_name);
        assert(r@ =~= head + entries((i + 1) as nat, up@, rust_dir@, project_name@));
        i = i + 1;
    }
    r
}

/// Renders the build manifest.
pub fn generate_cargo_toml(project_name: &str) -> (r: String)
    ensures
        r@ == cargo_toml_text(project_name@),
{
    let mut r = String::from_str(CARGO_HEAD);
    r.append(project_name);
    r.append(CARGO_TAIL);
    r
}

/// Renders the editor launch configuration.
pub fn generate_launch_config(godot_dir: &str, godot_location: &str) -> (r: String)
    ensures
        r@ == launch_config_text(godot_dir@, godot_location@),
{
    let mut r = String::from_str(LAUNCH_HEAD);
    r.append(godot_dir);
    r.append(LAUNCH_MID);
    r.append(godot_location);
    r.append(LAUNCH_TAIL);
    r
}

/// Renders the engine tree's ignore list.
pub fn generate_godot_gitignore() -> (r: String)
    ensures
        r@ == ENGINE_GITIGNORE@,
{
    String::from_str(ENGINE_GITIGNORE)
}

/// Renders the extension tree's ignore list.
pub fn generate_rust_gitignore() -> (r: String)
    ensures
        r@ == EXTENSION_GITIGNORE@,
{
    String::from_str(EXTENSION_GITIGNORE)
}

/// Renders the engine tree's icon.
pub fn generate_icon_svg() -> (r: String)
    ensures
        r@ == ICON_SVG@,
{
    String::from_str(ICON_SVG)
}

/// Renders the library's entry-point source.
pub fn generate_lib_rs() -> (r: String)
    ensures
        r@ == LIB_RS_STUB@,
{
    String::from_str(LIB_RS_STUB)
}

/// Renders the editor's recommended extensions.
pub fn generate_vscode_extensions() -> (r: String)
    ensures
        r@ == EXTENSIONS_JSON@,
{
    String::from_str(EXTENSIONS_JSON)
}

} // verus!
