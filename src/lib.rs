//! Squash a list of pull requests, one commit each, onto a local branch.
//!
//! The library decides which git commands run, in which order, and which
//! failures end a run; the program around it launches them.
pub mod cli;
pub mod driver;
pub mod exec;
pub mod laws;
pub mod repo;
pub mod text;
