//! Verified core of a build-artifact and repository cleaning tool.
//!
//! The crate models directory trees as explicit values and verifies the
//! scanners that classify build artifacts, empty folders and git checkouts,
//! together with the wildcard pattern matching and the platform-rule
//! validation they rely on.

pub mod all_values;
pub mod builds;
pub mod display;
pub mod editor;
pub mod empties;
pub mod filter;
pub mod fs_tree;
pub mod glob;
pub mod platform;
pub mod question;
pub mod repos;
pub mod selection;
pub mod text;
pub mod validation;
