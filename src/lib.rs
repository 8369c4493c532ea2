//! A referee for the line-oriented JSON protocol that a benchmark eval and a
//! differentiable-programming tool speak, and the planning of the runs around it.
//!
//! - [`engine`]: the referee, one step per event, from the state of a run to the next state and
//!   the action to take; [`protocol`] reads what it needs of messages and responses, and
//!   [`json`] models their values.
//! - [`outcome`]: the outcomes of a run, their names, exit codes and precedence.
//! - [`log`]: the lines of a run's log, and the trimming of a log.
//! - [`names`], [`docker`], [`docker_build`], [`run_items`], [`dry_run`], [`expectations`],
//!   [`matrix`]: the command lines, paths and reports of running evals against tools.
mod text;

pub mod docker;
pub mod docker_build;
pub mod dry_run;
pub mod engine;
pub mod expectations;
pub mod json;
pub mod log;
pub mod matrix;
pub mod names;
pub mod outcome;
pub mod protocol;
pub mod run_items;
