//! Agents: the autonomous travellers of the galaxy.
//!
//! World-space quantities are held as plain integers in fixed point:
//! positions and distances in thousandths of a world unit ("milli-units"),
//! money and health in hundredths of a unit.

use vstd::prelude::*;

use crate::solar_system::SystemAttributes;
use crate::stargate::Stargate;

verus! {

/// A world-space position in milli-units.
#[derive(Clone, Copy, Debug, PartialEq, Eq, Structural, Hash)]
pub struct Position {
    /// East-west coordinate, in thousandths of a world unit.
    pub x_milli: i64,
    /// North-south coordinate, in thousandths of a world unit.
    pub y_milli: i64,
}

/// Represents the financial assets of an agent.
#[derive(Clone, Copy, Debug, PartialEq, Eq, Structural, Default)]
pub struct Wallet {
    /// The amount of money the agent has, in hundredths of a unit.
    pub money_centi: u64,
}

/// A goal an agent can pursue.
#[derive(Clone, Copy, Debug, PartialEq, Eq, Structural, Default)]
pub enum Goal {
    #[default]
    /// The agent has no goal.
    Rest,
    /// The agent is exploring the world.
    Explore,
    /// The agent is defending a location.
    Defend,
    /// The agent is trading with another agent.
    Trade,
}

/// Represents the agent's current goal.
#[derive(Clone, Copy, Debug, PartialEq, Eq, Structural, Default)]
pub struct CurrentGoal {
    /// The agent's current goal.
    pub goal: Option<Goal>,
}

/// Represents the health of the agent.
#[derive(Clone, Copy, Debug, PartialEq, Eq, Structural, Default)]
pub struct Health {
    /// The agent's current health, in hundredths of a point.
    pub current_centi: u64,
    /// The agent's maximum health, in hundredths of a point.
    pub max_centi: u64,
}

/// The faction or group the agent belongs to.
#[derive(Clone, Copy, Debug, PartialEq, Eq, Structural, Default)]
pub enum Faction {
    #[default]
    /// The agent is neutral or independent.
    Neutral,
    /// The agent trades between systems.
    Trader,
    /// The agent explores the galaxy.
    Explorer,
    /// The agent defends its home.
    Defender,
}

/// Represents the agent's home system.
#[derive(Clone, Debug, PartialEq, Eq)]
pub struct HomeSystem {
    /// The agent's home system.
    pub home: SystemAttributes,
}

/// Represents the agent's current system.
#[derive(Clone, Debug, PartialEq, Eq)]
pub struct CurrentSystem {
    /// The agent's current system.
    pub system: SystemAttributes,
}

/// Represents the agent's target system.
#[derive(Clone, Debug, PartialEq, Eq)]
pub struct TargetSystem {
    /// The agent's target system.
    pub location: Option<SystemAttributes>,
}

/// The list of stargates to travel through to reach the target system.
#[derive(Clone, Debug, PartialEq, Eq, Default)]
pub struct StargatePath {
    /// The list of stargates to travel through, consumed front first.
    pub path: Vec<Stargate>,
}

/// An agent in the game world.
#[derive(Clone, Debug, PartialEq)]
pub struct Agent {
    /// The unique ID of the agent.
    pub id: u32,
    /// The name of the agent.
    pub name: String,
    /// The agent's wallet.
    pub wallet: Wallet,
    /// The agent's current goal.
    pub current_goal: CurrentGoal,
    /// The agent's health.
    pub health: Health,
    /// The agent's home system.
    pub home_system: HomeSystem,
    /// The agent's current system.
    pub current_system: CurrentSystem,
    /// The agent's target system.
    pub target_system: TargetSystem,
    /// The agent's path to the target system.
    pub stargate_path: StargatePath,
    /// The agent's current destination in world space, if any.
    pub target_destination: Option<Position>,
    /// The speed of the agent, in milli-units per second.
    pub speed_milli: u64,
}

impl Agent {
    /// Creates a new agent with the given ID and name, at home in
    /// `home_system`, with full health, starting money and the default
    /// speed, and no path or destination.
    pub fn new(id: u32, name: String, home_system: SystemAttributes) -> (r: Self)
        ensures
            r.id == id,
            r.name == name,
            r.wallet.money_centi == 10_000,
            r.current_goal.goal is None,
            r.health.current_centi == 10_000 && r.health.max_centi == 10_000,
            r.home_system.home == home_system,
            r.current_system.system == home_system,
            r.target_system.location is None,
            r.stargate_path.path@ == Seq::<Stargate>::empty(),
            r.target_destination is None,
            r.speed_milli == 100_000,
    {
        let home_copy = home_system.clone();
        Agent {
            id,
            name,
            wallet: Wallet { money_centi: 10_000 },
            current_goal: CurrentGoal { goal: None },
            health: Health { current_centi: 10_000, max_centi: 10_000 },
            home_system: HomeSystem { home: home_copy },
            current_system: CurrentSystem { system: home_system },
            target_system: TargetSystem { location: None },
            stargate_path: StargatePath { path: Vec::new() },
            target_destination: None,
            speed_milli: 100_000,
        }
    }

    /// Set the path to the target system.
    pub fn set_stargate_path(&mut self, path: Vec<Stargate>)
        ensures
            final(self).stargate_path.path == path,
            *final(self) == (Agent {
                stargate_path: (StargatePath { path }),
                ..*old(self)
            }),
    {
        self.stargate_path.path = path;
    }
}

} // verus!
