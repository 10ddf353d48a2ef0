//! A bridge between an emulated 32-bit ARM machine and a remote debugger.
//!
//! The crate holds the decisions of the bridge: which registers travel in
//! which order, which breakpoints exist, what a debugger is told when the
//! machine stops, and which parts of a program image go where. The machine
//! itself and the debugger connection are driven by the caller, who hands
//! their answers to the functions here as plain values.

pub mod error;
pub mod breakpoints;
pub mod loader;
pub mod memory;
pub mod registers;
pub mod session;
pub mod target;
