//! Session state for a harness that drives a package manager over every
//! member of a workspace.

pub mod cli;
pub mod context;
pub mod features;
pub mod manifest;
pub mod metadata;
pub mod process;
pub mod tool;
