//! A typed wrapper around the `op` password-manager command-line tool:
//! locating the binary, binding a session token, and reading items from the
//! tool's JSON output. The subprocess and environment reads themselves stay
//! outside; this crate holds the logic that decides what to run and what the
//! captured output means.

pub mod error;
pub mod item;
pub mod json;
pub mod run;
pub mod session;
pub mod strutil;
pub mod tool;
