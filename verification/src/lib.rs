//! Decision logic of a single-threaded futures executor that drives spawned
//! background futures alongside one running future.

pub mod spawn_state;
pub mod laws;
pub mod polling;
pub mod channel;
pub mod remote;
pub mod round;
