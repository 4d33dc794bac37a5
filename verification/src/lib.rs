//! A verified core for a line-oriented word-guessing server.
//!
//! The library holds the parts of the game that are pure logic: the shared
//! pool of candidate secret words, the lexicographic comparison that answers
//! each guess, the per-connection session state machine, and the building of
//! every protocol and telemetry line.  The surrounding process (sockets,
//! threads, the clock) feeds the library plain values and carries out the
//! actions it returns.

pub mod order;
pub mod pool;
pub mod session;
pub mod text;
