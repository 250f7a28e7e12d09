//! Supervised command execution core for Windows command-line tools.
//!
//! The crate builds validated invocations for a package manager (`scoop`)
//! and a service wrapper (`winsw`), composes process environments, maps
//! process outcomes into a closed error taxonomy, and keeps a time-bounded
//! cache of "is the tool installed" detections.  Everything that decides or
//! computes is verified; spawning processes and reading the clock, the
//! environment and the disk sit behind a handful of trusted wrappers or in
//! the surrounding application.

pub mod env;
pub mod scoop;
pub mod sys;
pub mod text;
pub mod winsw;
