//! Self-update for the maple command-line tool: reading version numbers out of
//! release tags, and deciding, step by step, whether to report a new release
//! or to download it and move it onto the running executable.
pub mod error;
pub mod release;
pub mod update;
pub mod version;
