//! Verified control logic of a GPU Game of Life: the simulation grid and its
//! compute dispatch, the ping-pong texture schedule, the device and window
//! settings, and the per-frame state machine that turns input and clock
//! ticks into GPU work.
pub mod control;
pub mod grid;
pub mod launch;
