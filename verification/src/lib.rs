//! A task runner: named tasks (shell commands, delegations to other tasks,
//! ordered steps and parallel groups of steps) are resolved into process
//! invocations, with the working directory and the environment scoped the way
//! the task definitions ask for.
//!
//! The library decides; its caller acts. Everything that touches the outside
//! world (spawning a process, reading a file, starting a thread) is requested
//! through [`runner::Action`] and answered through [`runner::Event`].
//!
//! - [`config`], [`env`], [`path`] and [`error`] hold the data: task
//!   documents, environments, directories and errors, each with its
//!   mathematical value.
//! - [`semantics`] says what a run means, [`runner`] computes it, and
//!   [`laws`] proves what holds of every run.
//! - [`platform`], [`rnr_config`], [`cli`] and [`commands`] hold what the
//!   tool decides about platforms, settings, the command line and releases.
//! - [`text`], [`sorting`] and [`assoc`] are the helpers underneath.

pub mod assoc;
pub mod cli;
pub mod commands;
pub mod config;
pub mod env;
pub mod error;
pub mod laws;
pub mod path;
pub mod platform;
pub mod rnr_config;
pub mod runner;
pub mod semantics;
pub mod sorting;
pub mod text;
