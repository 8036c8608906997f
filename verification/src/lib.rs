//! Decision logic of a two-coil light controller whose blink cadence follows a
//! light-curtain sensor.
//!
//! Nothing here performs bus traffic, sleeps or reads a clock. Every function maps
//! plain values (replies already read from the bus, timestamps in nanoseconds) to
//! the next request, write or wait, so that a thin asynchronous shell can carry
//! them out.

pub mod cadence;
pub mod coil;
pub mod command;
pub mod config;
pub mod cycle;
pub mod monitor;
