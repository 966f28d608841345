//! Override reconciliation for a vendor firmware codebase.
//!
//! Files of the codebase are overridden through a manifest of declarations
//! (`"<dst>/<src>";"<src>"` lines, each before a component terminator) and a tree
//! of override copies. This library edits the manifest, plans how an override is
//! materialized or cleaned, reads the version-control client's reports of what
//! changed in a revision, and decides for each change how the overrides of the
//! primary layer and of an optional secondary layer follow it. Paths are byte
//! strings in slash form; the caller performs the queries and file operations
//! that the library names.

pub mod audk;
pub mod cbup;
pub mod git;
pub mod manifest;
pub mod ovrd;
pub mod subcmd_build;
pub mod text;
pub mod view;
