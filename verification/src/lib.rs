//! A verified model of a two-state menu/game application.
//!
//! The library captures the control-flow logic of a small application that
//! switches between a `Menu` state and an `InGame` state: which key press
//! requests which transition, which text entity is alive in which state, and
//! what one frame of the host loop does to the whole application state.
//! A thin unverified shell is expected to pump real input events in and to
//! carry the requested effects (spawning, despawning, logging) out.

pub mod state;

pub mod app;
