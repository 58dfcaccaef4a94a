//! Splices a program's standard output through an external pager without a
//! shell: which pager to run, and the pipe, fork, redirect and exec protocol
//! that launches it, as pure decisions over plain values.

pub mod launcher;
pub mod primitives;
pub mod process;
pub mod resolver;
pub mod search;
pub mod trace;

pub use crate::launcher::Pager;
