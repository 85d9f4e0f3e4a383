//! Editing of a cargo workspace manifest: registering member crates under
//! `workspace.members` and path overrides under `patch.crates-io`, while
//! preserving the formatting of every untouched region of the document.

pub mod cli;
pub mod error;
pub mod manifest;
pub mod toml_doc;
pub mod validate;
