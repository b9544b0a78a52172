use godot_rust_scaffold::paths::{normalize, resolve};

#[test]
fn normalize_collapses_parent_dirs() {
    assert_eq!(normalize("foo/../../bar"), "../bar");
    assert_eq!(normalize("hello/world/.."), "hello");
    assert_eq!(normalize("/test/../path/"), "/path");
}

#[test]
fn normalize_empty_and_dots_give_current_dir() {
    assert_eq!(normalize(""), ".");
    assert_eq!(normalize("."), ".");
    assert_eq!(normalize("././/./"), ".");
    assert_eq!(normalize("test/.."), ".");
}

#[test]
fn normalize_collapses_separators_and_dots() {
    assert_eq!(normalize("path//to///thing"), "path/to/thing");
    assert_eq!(normalize("./godot"), "godot");
    assert_eq!(normalize("godot/"), "godot");
    assert_eq!(normalize("/.."), "/");
    assert_eq!(normalize("../test/.."), "..");
}

#[test]
fn normalize_is_idempotent() {
    for s in ["", ".", "..", "/", "foo/../../bar", "a//b/./c/..", "/x/../../y", "../../a", "godot/"] {
        let once = normalize(s);
        assert_eq!(normalize(&once), once);
    }
}

#[test]
fn resolve_in_current_dir() {
    let p = resolve(".", "godot", "rust");
    assert_eq!(p.root, ".");
    assert_eq!(p.engine_dir, "godot");
    assert_eq!(p.extension_dir, "rust");
    assert_eq!(p.engine_path, "godot");
    assert_eq!(p.extension_path, "rust");
    assert_eq!(p.depth, 1);
}

#[test]
fn resolve_current_dir_name_has_depth_zero() {
    let p = resolve(".", ".", "rust");
    assert_eq!(p.engine_dir, ".");
    assert_eq!(p.engine_path, ".");
    assert_eq!(p.depth, 0);
    let q = resolve("proj", "./", "rust");
    assert_eq!(q.engine_path, "proj");
    assert_eq!(q.depth, 0);
}

#[test]
fn resolve_nested_dirs() {
    let p = resolve("proj/", "games//demo", "./libs/demo/");
    assert_eq!(p.root, "proj");
    assert_eq!(p.engine_dir, "games/demo");
    assert_eq!(p.extension_dir, "libs/demo");
    assert_eq!(p.engine_path, "proj/games/demo");
    assert_eq!(p.extension_path, "proj/libs/demo");
    assert_eq!(p.depth, 2);
}

#[test]
fn resolve_rooted_and_parent_names() {
    let p = resolve("/work", "/abs/godot", "../rust");
    assert_eq!(p.engine_path, "/abs/godot");
    assert_eq!(p.extension_path, "/rust");
    assert_eq!(p.depth, 3);
    let q = resolve("a/b", "x/../y", "z");
    assert_eq!(q.engine_dir, "y");
    assert_eq!(q.engine_path, "a/b/y");
    assert_eq!(q.depth, 1);
}
