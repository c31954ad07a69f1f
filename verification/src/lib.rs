//! Push replication engine for Pi-hole v6 replica setups.
//!
//! The library holds the decisions of the replication daemon: the
//! configuration model and its normalisation, the Pi-hole API session and
//! request/response rules, the filesystem event filter and the daemon's
//! event-driven state machine. The binary around it performs the I/O.
pub mod api;
pub mod args;
pub mod config;
pub mod consts;
pub mod daemon;
pub mod watcher;
