//! Hardware abstraction for a single-core SoC board: typed access to the
//! memory-mapped GPIO, system timer and Mini-UART registers, and a broker
//! for the two byte buffers that carry console traffic.
//!
//! Register blocks are arrays of volatile 32-bit cells, reached through a
//! `mmio::Board`. On the board they are placed over the addresses in `mmio`;
//! in a test they are ordinary memory. Each operation states the exact
//! sequence of register accesses it makes, and no value is assumed of a
//! load. Every function does a bounded amount of work: waiting on the
//! hardware is left to the caller, which repeats a single poll until it
//! succeeds.

pub mod console;
pub mod gpio;
pub mod mmio;
pub mod stdio;
pub mod timer;
pub mod uart;
