//! Watches for a named process and decides when a Home Assistant entity
//! should be switched on or off.
//!
//! The crate holds the decisions only. Reading the process table, waiting on
//! queues and timers, and talking to Home Assistant are left to the caller,
//! which hands each result back as a plain value.

pub mod config;
pub mod hass;
pub mod power;
pub mod process;
pub mod setup;
pub mod table;
