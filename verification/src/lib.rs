//! A minimal IRC client core: line parsing, the protocol/session state
//! machine, the connection supervisor's retry policy, and the log sink's
//! dispatch, all as pure byte-level logic with proved contracts. The
//! surrounding process (sockets, threads, timers) drives these functions
//! and performs the actions they decide on.

pub mod bytes;
pub mod config;
pub mod irc;
pub mod log;
pub mod socket;
pub mod supervisor;
