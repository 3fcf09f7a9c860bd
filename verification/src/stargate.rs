//! Stargates: the directed, weighted connections between solar systems.

use vstd::prelude::*;

verus! {

/// A stargate is a device within the game world that lets agents travel
/// between solar systems. It is a directed connection: it sits in its
/// origin system and leads to its destination system, at a given traversal
/// distance. Gates are normally created in mirrored pairs, each naming the
/// other through `destination_gate_id`, but nothing requires symmetry.
#[derive(Debug, PartialEq, Eq, Hash)]
pub struct Stargate {
    /// Stargate ID
    pub id: u32,
    /// The name of the star stargate
    pub name: String,
    /// The distance from the stargate to the destination
    pub distance: u32,
    /// The destination stargate's id
    pub destination_gate_id: u32,
    /// The solar system this stargate is in (the source)
    pub origin_system_id: u32,
    /// The destination solar system id
    pub destination_system_id: u32,
    /// Whether the stargate is active or not
    pub is_active: bool,
}

impl Clone for Stargate {
    fn clone(&self) -> (r: Self)
        ensures
            r == *self,
    {
        Stargate {
            id: self.id,
            name: self.name.clone(),
            distance: self.distance,
            destination_gate_id: self.destination_gate_id,
            origin_system_id: self.origin_system_id,
            destination_system_id: self.destination_system_id,
            is_active: self.is_active,
        }
    }
}

impl Default for Stargate {
    fn default() -> (r: Self)
        ensures
            r.id == 0,
            r.name@ == "Abandoned Star Gate"@,
            r.distance == 0,
            r.destination_gate_id == 0,
            r.origin_system_id == 0,
            r.destination_system_id == 0,
            r.is_active,
    {
        Stargate {
            id: 0,
            name: "Abandoned Star Gate".to_owned(),
            distance: 0,
            destination_gate_id: 0,
            origin_system_id: 0,
            destination_system_id: 0,
            is_active: true,
        }
    }
}

impl Stargate {
    /// Creates a new stargate with the given fields.
    pub fn new(
        id: u32,
        name: String,
        distance: u32,
        destination_gate_id: u32,
        origin_system_id: u32,
        destination_system_id: u32,
        is_active: bool,
    ) -> (r: Self)
        ensures
            r == (Stargate {
                id,
                name,
                distance,
                destination_gate_id,
                origin_system_id,
                destination_system_id,
                is_active,
            }),
    {
        Stargate {
            id,
            name,
            distance,
            destination_gate_id,
            origin_system_id,
            destination_system_id,
            is_active,
        }
    }

    /// Get the stargate id.
    pub fn id(&self) -> (r: u32)
        ensures
            r == self.id,
    {
        self.id
    }

    /// Deactivate the stargate.
    pub fn deactivate(&mut self)
        ensures
            *final(self) == (Stargate { is_active: false, ..*old(self) }),
    {
        self.is_active = false;
    }

    /// Activate the stargate.
    pub fn activate(&mut self)
        ensures
            *final(self) == (Stargate { is_active: true, ..*old(self) }),
    {
        self.is_active = true;
    }

    /// Check if the stargate is active.
    pub fn is_active(&self) -> (r: bool)
        ensures
            r == self.is_active,
    {
        self.is_active
    }

    /// Get the distance to the destination.
    pub fn distance(&self) -> (r: u32)
        ensures
            r == self.distance,
    {
        self.distance
    }

    /// Set the paired destination stargate.
    pub fn set_destination_gate_id(&mut self, destination: u32)
        ensures
            *final(self) == (Stargate { destination_gate_id: destination, ..*old(self) }),
    {
        self.destination_gate_id = destination;
    }

    /// Set the origin system.
    pub fn set_origin_system_id(&mut self, origin: u32)
        ensures
            *final(self) == (Stargate { origin_system_id: origin, ..*old(self) }),
    {
        self.origin_system_id = origin;
    }

    /// Set the destination system.
    pub fn set_destination_system_id(&mut self, destination: u32)
        ensures
            *final(self) == (Stargate { destination_system_id: destination, ..*old(self) }),
    {
        self.destination_system_id = destination;
    }

    /// Get the ID of the origin system.
    pub fn origin_system_id(&self) -> (r: u32)
        ensures
            r == self.origin_system_id,
    {
        self.origin_system_id
    }

    /// Get the stargate's system destination.
    pub fn destination_system_id(&self) -> (r: u32)
        ensures
            r == self.destination_system_id,
    {
        self.destination_system_id
    }
}

/// The stargates that stand in one solar system.
#[derive(Default, Clone, Debug, PartialEq, Eq, Hash)]
pub struct JumpGates(pub Vec<Stargate>);

impl JumpGates {
    /// Add a stargate to the system.
    pub fn add_gate(&mut self, gate: Stargate)
        ensures
            final(self).0@ == old(self).0@.push(gate),
    {
        self.0.push(gate);
    }
}

} // verus!
