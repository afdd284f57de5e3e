//! Lifecycle supervision for a fixed roster of worker actors: the startup and
//! shutdown handshakes, the crash policy, and the per-frame scheduler of the
//! rendering actor. Every decision is a transition function with an exact
//! contract; threads, channels and clocks stay with the caller.

pub mod types;
pub mod commands;
pub mod barrier;
pub mod supervisor;
pub mod worker;
pub mod error;
pub mod scheduler;
pub mod map;
pub mod screen;
pub mod laws;
