//! A space-simulation core: a navigation graph of solar systems connected by
//! stargates, shortest-path queries over it, the travel state machine that
//! moves an agent along a resolved path one stargate hop at a time, and the
//! desire accumulator that scores how strongly an agent wants to travel.

pub mod agent;
pub mod faction;
pub mod items;
pub mod laws;
pub mod pathfinding;
mod rng;
pub mod selection;
pub mod solar_system;
pub mod travel;
pub mod wander;
pub mod stargate;

pub use faction::Bank;
pub use faction::FactionID;
