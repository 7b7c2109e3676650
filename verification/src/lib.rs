//! Language plugins for a sandboxed code-execution service.
//!
//! For each supported language this crate supplies a descriptor: identity
//! (id, display name, canonical file suffix), editor and container
//! configuration, and the policy that turns one main source file plus a set
//! of auxiliary files into the build and run commands to execute.

pub mod language;
pub mod registry;
pub mod utils;
