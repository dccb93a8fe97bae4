//! Adds `[patch]` overrides to a Cargo manifest, redirecting one dependency
//! to a git repository, a registry version or a local path.
//!
//! The library holds the decisions: how a locked package's source is
//! classified, whether a patch for it already exists, and which override
//! table is appended. Reading and writing files is left to the caller.
pub mod arg_parse;
pub mod cargo_parse;
pub mod error;
pub mod git_patch;
pub mod index_patch;
pub mod manifest;
pub mod patch;
pub mod path_patch;
pub mod text;
