//! Decision logic for a small command-line front end to `cryptsetup`.
//!
//! The front end opens, closes and provisions LUKS volumes by running
//! `cryptsetup`, `mount`, `umount` and `mkfs.*` in a fixed order.  Running
//! programs, reading the terminal and looking at directories is left to a
//! driver; this crate decides *what* the driver has to do next and *what
//! it means* when the driver reports back.
//!
//! - [`cli`] reads the command line and decides whether to start at all;
//! - [`probe`] looks for `cryptsetup`, the one thing this crate asks the
//!   file system itself;
//! - [`text`], [`paths`], [`prompt`] and [`commands`] hold the strings:
//!   trimming, mount points, questions and command lines;
//! - [`model`] is the state machine of the three workflows over
//!   mathematical values, [`workflow`] its executable form;
//! - [`run`] speaks of whole runs, and [`laws`] proves what holds of
//!   every one of them.
//!
//! The executable functions are verified with Verus against the model.

pub mod cli;
pub mod commands;
pub mod laws;
pub mod model;
pub mod paths;
pub mod probe;
pub mod prompt;
pub mod run;
pub mod text;
pub mod workflow;
