//! A small library for serving bare Git repositories over HTTP: it builds
//! the deterministic on-disk paths for repositories, materializes a branch's
//! file tree into a node graph annotated with last-modifying-commit metadata,
//! retrieves raw blob bytes by branch and path, lists branches, and renders
//! results in the exact JSON wire format clients expect.  All logic is
//! verified; the Git object database itself is reached through a narrow set
//! of trusted wrappers around the `git2` crate.

pub mod text;
pub mod paths;
pub mod error;
pub mod node;
pub mod json;
pub mod git;
pub mod api;
