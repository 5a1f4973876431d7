//! Kraken: the job execution and log-relay engine of a remote job monitor.
//!
//! A job is one shell command run as a detached background process. Every line of
//! its output is appended to a local file and submitted to a remote relay. This
//! crate holds the decisions of that engine as state machines over plain values,
//! with contracts that say which record goes to which sink and in what order. The
//! process, file and network work around it belongs to the program that drives the
//! machines.

pub mod completion;
pub mod text;
pub mod record;
pub mod identity;
pub mod job;
pub mod transcript;
pub mod kraken_utils;
pub mod krephis;
pub mod str_replace;
pub mod cli;
