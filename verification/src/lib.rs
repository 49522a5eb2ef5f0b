//! The core of a contest-solution manager: how a solution program is built,
//! started, fed its input, supervised under two timeouts and judged against
//! the expected output of a test case.
//!
//! Everything here works on plain values. Reading files, spawning processes
//! and waiting on them is left to the caller, which hands the observed
//! values to the functions of this crate.

pub mod args;
pub mod builder;
pub mod cmake;
pub mod command;
pub mod config;
pub mod fixture;
pub mod order;
pub mod outcome;
pub mod path;
pub mod render;
pub mod repo;
pub mod session;
pub mod stamp;
pub mod supervisor;
pub mod text;
pub mod ui;
pub mod verdict;
pub mod workspace;
