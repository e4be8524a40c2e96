//! Inspection and control of services that run under a process-supervision
//! tree: one directory per service, each with a status record that its
//! supervisor keeps up to date.
//!
//! The library holds the rules: how a status record is decoded, when a
//! service counts as enabled, what a scan reports for each service and in
//! which order, and which change `enable` and `disable` ask for. Reading
//! directories, files and the process table is left to the caller, who hands
//! in what was read as plain values.

pub mod commands;
pub mod config;
pub mod error;
pub mod process;
pub mod scan;
pub mod service;
pub mod status;
pub mod text;
