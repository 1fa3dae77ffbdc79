//! Installs the dependencies that a package manifest declares.
//!
//! The library holds the rules of the tool as verified code: how a dependency
//! declaration becomes an argument list, which command is built for the fast
//! binary installer and which for the canonical one, in which order the two
//! are tried, and when a run stops. Reading files and spawning processes is
//! left to the caller, who performs the action that the run asks for and
//! reports back what happened.

pub mod args;
pub mod command;
pub mod dependency;
pub mod error;
pub mod installer;
pub mod keys;
pub mod manifest;
pub mod output;
pub mod progress;
pub mod report;
pub mod session;
