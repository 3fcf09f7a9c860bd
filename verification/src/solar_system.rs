//! Solar systems: the navigable locations of the galaxy.

use vstd::prelude::*;

use crate::faction::FactionID;

verus! {

/// The identity of a solar system: a stable numeric identifier, a display
/// name, and the faction that owns it. The identifier never changes; the
/// name and the owner may.
#[derive(Debug, PartialEq, Eq, Hash)]
pub struct SystemAttributes {
    /// The ID of the system
    pub id: u32,
    /// The Name of the system
    pub name: String,
    /// The faction that owns the system
    pub owner: FactionID,
}

impl Clone for SystemAttributes {
    fn clone(&self) -> (r: Self)
        ensures
            r == *self,
    {
        SystemAttributes { id: self.id, name: self.name.clone(), owner: self.owner }
    }
}

impl Default for SystemAttributes {
    fn default() -> (r: Self)
        ensures
            r.id == 0,
            r.name@ == "Placeholder"@,
            r.owner.id == 0,
    {
        SystemAttributes { id: 0, name: "Placeholder".to_owned(), owner: FactionID { id: 0 } }
    }
}

/// A list of the entities currently inside a solar system, each named by a
/// plain numeric entity id.
#[derive(Default, Debug, PartialEq, Eq, Hash)]
pub struct EntityList(pub Vec<u64>);

impl Clone for EntityList {
    fn clone(&self) -> (r: Self)
        ensures
            r.0@ == self.0@,
    {
        let mut out: Vec<u64> = Vec::new();
        let mut i: usize = 0;
        while i < self.0.len()
            invariant
                i <= self.0.len(),
                out@ == self.0@.take(i as int),
            decreases self.0.len() - i,
        {
            out.push(self.0[i]);
            proof {
                assert(out@ =~= self.0@.take(i + 1int));
            }
            i = i + 1;
        }
        proof {
            assert(self.0@.take(self.0@.len() as int) =~= self.0@);
        }
        EntityList(out)
    }
}

/// Two solar systems carry equal attributes and list the same entities.
/// The entity lists are compared by their contents.
pub open spec fn system_data_eq(a: SolarSystem, b: SolarSystem) -> bool {
    a.attributes == b.attributes && a.entities.0@ == b.entities.0@
}

/// A navigable location in the galaxy graph.
#[derive(Debug, PartialEq, Eq, Hash)]
pub struct SolarSystem {
    /// The solar system's attributes
    pub attributes: SystemAttributes,
    /// The entities currently in the system
    pub entities: EntityList,
}

impl Clone for SolarSystem {
    fn clone(&self) -> (r: Self)
        ensures
            system_data_eq(r, *self),
    {
        SolarSystem { attributes: self.attributes.clone(), entities: self.entities.clone() }
    }
}

impl SolarSystem {
    /// Create a placeholder solar system with default attributes and no
    /// entities.
    pub fn new_placeholder() -> (r: Self)
        ensures
            r.attributes.id == 0,
            r.attributes.name@ == "Placeholder"@,
            r.attributes.owner.id == 0,
            r.entities.0@ == Seq::<u64>::empty(),
    {
        SolarSystem { attributes: Default::default(), entities: EntityList(Vec::new()) }
    }

    /// Update the name of the system.
    pub fn update_system_name(&mut self, name: String)
        ensures
            final(self).attributes.name == name,
            final(self).attributes.id == old(self).attributes.id,
            final(self).attributes.owner == old(self).attributes.owner,
            final(self).entities == old(self).entities,
    {
        self.attributes.name = name;
    }

    /// Update the owner of the system.
    pub fn update_system_owner(&mut self, owner: FactionID)
        ensures
            final(self).attributes.owner == owner,
            final(self).attributes.id == old(self).attributes.id,
            final(self).attributes.name == old(self).attributes.name,
            final(self).entities == old(self).entities,
    {
        self.attributes.owner = owner;
    }

    /// Add an entity to the system.
    pub fn add_entity(&mut self, entity: u64)
        ensures
            final(self).entities.0@ == old(self).entities.0@.push(entity),
            final(self).attributes == old(self).attributes,
    {
        self.entities.0.push(entity);
    }

    /// Remove every occurrence of an entity from the system.
    pub fn remove_entity(&mut self, entity: u64)
        ensures
            final(self).entities.0@ == old(self).entities.0@.filter(|e: u64| e != entity),
            final(self).attributes == old(self).attributes,
    {
        let mut kept: Vec<u64> = Vec::new();
        let mut i: usize = 0;
        while i < self.entities.0.len()
            invariant
                *self == *old(self),
                i <= self.entities.0.len(),
                kept@ == self.entities.0@.take(i as int).filter(|e: u64| e != entity),
            decreases self.entities.0.len() - i,
        {
            let e = self.entities.0[i];
            proof {
                assert(self.entities.0@.take(i + 1int).drop_last() == self.entities.0@.take(
                    i as int,
                ));
                reveal(Seq::filter);
            }
            if e != entity {
                kept.push(e);
            }
            i = i + 1;
        }
        proof {
            assert(self.entities.0@.take(self.entities.0@.len() as int) == self.entities.0@);
        }
        self.entities.0 = kept;
    }
}

} // verus!
