//! Subdomain port scanning: a deduplicated set of discovered hostnames, the
//! rules that decide which of them are probed, and the per-host sweep over a
//! fixed list of TCP ports, written as a state machine that a driver feeds with
//! the outcomes of name resolution and connection attempts.

pub mod cli;
pub mod hostname;
pub mod ports;
pub mod probe;
pub mod provider;
pub mod report;
pub mod scan;
pub mod sweep;
pub mod text;
pub mod trace;
pub mod working_set;
