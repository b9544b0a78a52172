use godot_rust_scaffold::templates::{
    generate_cargo_toml, generate_gdextention_file, generate_godot_gitignore, generate_godot_project_file,
    generate_icon_svg, generate_launch_config, generate_lib_rs, generate_rust_gitignore,
    generate_vscode_extensions,
};

fn expected_manifest(name: &str, reloadable: bool, prefix: &str) -> String {
    format!(
        r#"[configuration]
entry_symbol = "gdext_rust_init"
compatibility_minimum = 4.1
{reloadable}
[libraries]
linux.debug.x86_64 =     "res://{p}/target/debug/lib{n}.so"
linux.release.x86_64 =   "res://{p}/target/release/lib{n}.so"
windows.debug.x86_64 =   "res://{p}/target/debug/{n}.dll"
windows.release.x86_64 = "res://{p}/target/release/{n}.dll"
macos.debug =            "res://{p}/target/debug/lib{n}.dylib"
macos.release =          "res://{p}/target/release/lib{n}.dylib"
macos.debug.arm64 =      "res://{p}/target/debug/lib{n}.dylib"
macos.release.arm64 =    "res://{p}/target/release/lib{n}.dylib""#,
        reloadable = if reloadable { "reloadable = true\n" } else { "" },
        p = prefix,
        n = name
    )
}

#[test]
fn project_file_embeds_name() {
    let expected = format!(
        r#"; Engine configuration file.
; It's best edited using the editor UI and not directly,
; since the parameters that go here are not all obvious.
;
; Format:
;   [section] ; section goes between []
;   param=value ; assign values to parameters

config_version=5

[application]

config/name="{}"
config/features=PackedStringArray("4.2", "GL Compatibility")
config/icon="res://icon.svg"

[rendering]

renderer/rendering_method="gl_compatibility"
renderer/rendering_method.mobile="gl_compatibility""#,
        "Demo"
    );
    assert_eq!(generate_godot_project_file("Demo"), expected);
}

#[test]
fn manifest_one_level_down() {
    assert_eq!(generate_gdextention_file("demo", false, 1, "rust"), expected_manifest("demo", false, "../rust"));
    assert_eq!(generate_gdextention_file("demo", true, 1, "rust"), expected_manifest("demo", true, "../rust"));
}

#[test]
fn manifest_follows_depth() {
    assert_eq!(generate_gdextention_file("lib", false, 0, "rust"), expected_manifest("lib", false, "rust"));
    assert_eq!(
        generate_gdextention_file("lib", false, 3, "ext/lib"),
        expected_manifest("lib", false, "../../../ext/lib")
    );
}

#[test]
fn manifest_reloadable_line_only_when_selected() {
    let with = generate_gdextention_file("demo", true, 1, "rust");
    let without = generate_gdextention_file("demo", false, 1, "rust");
    assert_eq!(with.lines().filter(|l| *l == "reloadable = true").count(), 1);
    assert!(!without.contains("reloadable"));
    assert_eq!(with.replacen("reloadable = true\n", "", 1), without);
}

#[test]
fn manifest_has_blank_line_before_libraries() {
    let without = generate_gdextention_file("demo", false, 1, "rust");
    assert!(without.starts_with(
        "[configuration]\nentry_symbol = \"gdext_rust_init\"\ncompatibility_minimum = 4.1\n\n[libraries]\nlinux.debug.x86_64 =     \"res://../rust/target/debug/libdemo.so\"\n"
    ));
    let with = generate_gdextention_file("demo", true, 1, "rust");
    assert!(with.contains("compatibility_minimum = 4.1\nreloadable = true\n\n[libraries]\n"));
}

#[test]
fn cargo_toml_embeds_name() {
    let expected = format!(
        r#"[package]
name = "{}"
version = "0.1.0"
edition = "2021"

[lib]
crate-type = ["cdylib"]  # Compile this crate to a dynamic C library.

[dependencies]
godot = {{ git = "https://github.com/godot-rust/gdext", branch = "master" }}
"#,
        "demo"
    );
    assert_eq!(generate_cargo_toml("demo"), expected);
}

#[test]
fn launch_config_embeds_dir_and_executable() {
    let expected = format!(
        r#"{{
    "configurations": [
        {{
            "name": "Debug Project (Godot 4)",
            "type": "lldb",
            "request": "launch",
            "preLaunchTask": "rust: cargo build",
            "cwd": "${{workspaceFolder}}/../{}",
            "args": [
                "-e", // run editor (remove this to launch the scene directly)
                "-w", // windowed mode
            ],
            "program": "{}"
        }}
    ]
}}"#,
        "godot", "/usr/bin/godot"
    );
    assert_eq!(generate_launch_config("godot", "/usr/bin/godot"), expected);
}

#[test]
fn fixed_bodies() {
    assert!(generate_godot_gitignore().starts_with("# Godot 4+ specific ignores\n.godot/\n"));
    assert!(generate_godot_gitignore().ends_with("mono_crash.*.json"));
    assert!(generate_rust_gitignore().starts_with("# Generated by Cargo\n"));
    assert!(generate_rust_gitignore().ends_with("*.pdb"));
    assert!(generate_icon_svg().starts_with("<svg height=\"128\""));
    assert!(generate_icon_svg().ends_with("</svg>"));
    assert!(generate_lib_rs().starts_with("use godot::prelude::*;"));
    assert!(generate_vscode_extensions().contains("\"tamasfe.even-better-toml\""));
}

#[test]
fn renderers_are_deterministic() {
    assert_eq!(generate_godot_project_file("Demo"), generate_godot_project_file("Demo"));
    assert_eq!(generate_gdextention_file("d", true, 2, "r"), generate_gdextention_file("d", true, 2, "r"));
    assert_eq!(generate_cargo_toml("d"), generate_cargo_toml("d"));
    assert_eq!(generate_launch_config("g", "x"), generate_launch_config("g", "x"));
    assert_eq!(generate_godot_gitignore(), generate_godot_gitignore());
    assert_eq!(generate_rust_gitignore(), generate_rust_gitignore());
}
