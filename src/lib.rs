//! An adaptive periodic probe actor: bounded metric histories, a registry of
//! lazily created series, a clamped cadence control and the actor's
//! lifecycle as a state machine from events to actions.

pub mod interval;
pub mod registry;
pub mod series;
pub mod watcher;
