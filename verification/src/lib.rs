//! Decision logic of a log-shipping agent.
//!
//! The agent follows log files, classifies each new line by severity, wraps
//! it in a telemetry record and sends the record to a collector, with bounded
//! retries. This library takes every decision of that pipeline and leaves the
//! acting to its caller, who opens and reads files, sleeps, and talks HTTP:
//!
//! - `config`: the configuration, the answers that make one, and its checks;
//! - `tailer`: what a file's tailer does after each open and each read;
//! - `severity`: the keyword table and the classification of a line;
//! - `record`: the telemetry record and how it is built;
//! - `dispatch`: the queue entry and the record made of it;
//! - `delivery`: attempts, backoff and the verdict on a record;
//! - `shutdown`: the main worker's reaction to the stop flag;
//! - `service`: the unit file for the host's supervisor;
//! - `pattern` and `text`: regular-expression search and character helpers.

pub mod config;
pub mod delivery;
pub mod dispatch;
pub mod pattern;
mod platform;
pub mod record;
pub mod service;
pub mod severity;
pub mod shutdown;
pub mod tailer;
pub mod text;
