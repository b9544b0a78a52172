//! Scaffolding of a paired Godot project and GDExtension (Rust) library:
//! path resolution, rendering of every generated file, the ordered plan of
//! optional features, and the actions a session performs.
pub mod features;
pub mod paths;
pub mod session;
pub mod templates;
pub mod words;
