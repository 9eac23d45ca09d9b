//! Core logic of an action-combat character controller.
//!
//! Each simulation tick decides which animated pose a character is in, how
//! movement input maps to locomotion commands, and how melee attacks chain
//! into combos with interruption and cancellation rules.  All quantities are
//! fixed-point integers: durations in milliseconds, stamina in milli-points,
//! speeds and playback rates in per-mille, so that every rule is exact.
//!
//! The engine-facing work (reading input devices, driving the physics
//! controller, playing animation clips) happens outside this crate; the
//! functions here are pure per-tick decisions over plain values.

pub mod feeder;
pub mod machine;
pub mod resolver;
pub mod stamina;
pub mod state;
