//! Diagnoses common misconfigurations in MultiMC log files.
//!
//! A log is scanned by a registry of independent rules. Each rule looks for one
//! known error signature and, when it is present, yields a [`finding::Finding`]:
//! a severity and a piece of advice.
//!
//! - [`rules`] holds the rules, [`registry`] the list of them and the scan;
//! - [`text`] and [`number`] search and read the log, [`pattern`] asks the
//!   `regex` crate;
//! - [`responder`] and [`commands`] hold what a chat bot decides around a scan;
//! - [`laws`] states what holds of every rule and of every scan.

pub mod commands;
pub mod finding;
pub mod laws;
pub mod number;
pub mod pattern;
pub mod registry;
pub mod responder;
pub mod rules;
pub mod text;
