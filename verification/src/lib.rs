//! The core of a one-shot Linux container runtime, as a library of decisions.
//!
//! Everything here computes: it parses the user's request, allocates
//! addresses, says which host commands, mounts and system calls set a
//! container up and tear it down, and judges what came back from them. The
//! program around the library performs those actions and reports each result.

pub mod cgroup;
pub mod cli;
pub mod command;
pub mod error;
pub mod filesystem;
pub mod namespace;
pub mod network;
pub mod path;
pub mod process;
pub mod registry;
pub mod setup;
pub mod text;
pub mod volume;
