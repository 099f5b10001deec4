//! Per-tick decision engine for autonomous worker units ("creeps") in a
//! tick-driven world simulation.
//!
//! Each tick, an agent either executes its committed goal (the executor) or
//! picks a fresh one (the resolver). All cross-tick state lives in the
//! agent's memory as stable object references; live world data is handed in
//! as a plain snapshot, and world actions are handed back as commands for
//! the host to perform.

pub mod creep;
pub mod model;
pub mod rng;
