//! Backend engine for a Pomodoro desktop timer: a state machine over
//! alternating work and break phases, with a polling protocol that drives
//! per-second progress notifications and phase completion.

pub mod laws;
pub mod timer;
