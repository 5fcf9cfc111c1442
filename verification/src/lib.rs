//! A keyboard-driven walking/footstep trigger.
//!
//! Each simulation tick the host hands over a snapshot of the held keys and
//! the wall-clock time since the previous tick. The library classifies the
//! snapshot into a locomotion state and says how many footstep sounds the
//! host owes for that tick: one on entering a moving state, and then one per
//! cadence period of wall-clock time while the state is kept. Reading the
//! keyboard, keeping the clock and playing the sounds stay with the host.

pub mod state;
pub mod ticker;
