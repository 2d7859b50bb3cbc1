//! Control logic of a switch-driven VPN connection daemon.
//!
//! Every decision the daemon takes is a function of this library: which
//! profile files a directory tree offers, when the supervised client process
//! may be started or must be stopped, how often a failed step is tried
//! again, when the log file is stale, and how control and serial input is
//! read. The program around it performs the actions and reports what
//! happened.
//!
//! The two neighbours of the daemon have their part here too: how the
//! notification display reads a message off the status socket, and what
//! the switch says on the serial line.

pub mod config;
pub mod daemon;
pub mod display;
pub mod handler;
pub mod logger;
pub mod notifier;
pub mod retry;
pub mod runner;
pub mod switch;
pub mod text;
