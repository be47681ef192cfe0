//! A scaffolder for minimal C projects.
//!
//! The library holds everything the tool decides or renders: command-line
//! parsing, the confirmation gate, the generated build configuration and
//! source stub, the shell commands to run, and the ordered plan of actions
//! that a run performs. The thin binary around it only executes that plan
//! against the real filesystem and shell.

pub mod confirm;
pub mod opts;
pub mod parse;
pub mod plan;
pub mod runner;
pub mod templates;
