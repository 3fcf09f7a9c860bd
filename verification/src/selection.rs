//! The player's current selection of solar systems.

use vstd::prelude::*;

use crate::solar_system::SolarSystem;

verus! {

/// Two solar systems carry the same data: same id, name, owner, and
/// entity list.
pub open spec fn same_system(a: SolarSystem, b: SolarSystem) -> bool {
    &&& a.attributes.id == b.attributes.id
    &&& a.attributes.name@ == b.attributes.name@
    &&& a.attributes.owner == b.attributes.owner
    &&& a.entities.0@ == b.entities.0@
}

/// Decide whether two solar systems carry the same data.
pub fn systems_equal(a: &SolarSystem, b: &SolarSystem) -> (r: bool)
    ensures
        r == same_system(*a, *b),
{
    if a.attributes.id != b.attributes.id {
        return false;
    }
    if !a.attributes.name.eq(&b.attributes.name) {
        return false;
    }
    if a.attributes.owner.id != b.attributes.owner.id {
        return false;
    }
    if a.entities.0.len() != b.entities.0.len() {
        return false;
    }
    let mut i: usize = 0;
    while i < a.entities.0.len()
        invariant
            i <= a.entities.0.len(),
            a.entities.0@.len() == b.entities.0@.len(),
            forall|k: int| 0 <= k < i ==> a.entities.0@[k] == b.entities.0@[k],
        decreases a.entities.0.len() - i,
    {
        if a.entities.0[i] != b.entities.0[i] {
            return false;
        }
        i = i + 1;
    }
    proof {
        assert(a.entities.0@ =~= b.entities.0@);
    }
    true
}

/// The currently selected solar systems, in selection order.
#[derive(Clone, Debug, PartialEq)]
pub struct Selection {
    /// The currently selected systems.
    pub selected: Vec<SolarSystem>,
}

impl Default for Selection {
    fn default() -> (r: Self)
        ensures
            r.selected@ == Seq::<SolarSystem>::empty(),
    {
        Selection { selected: Vec::new() }
    }
}

impl Selection {
    /// Creates a new, empty `Selection`.
    pub fn new() -> (r: Self)
        ensures
            r.selected@ == Seq::<SolarSystem>::empty(),
    {
        Selection { selected: Vec::new() }
    }

    /// Adds a system to the selection.
    pub fn set(&mut self, entity: SolarSystem)
        ensures
            final(self).selected@ == old(self).selected@.push(entity),
    {
        self.selected.push(entity);
    }

    /// Removes every selected system carrying the same data as the given
    /// one.
    pub fn remove(&mut self, entity: SolarSystem)
        ensures
            final(self).selected@ == old(self).selected@.filter(
                |x: SolarSystem| !same_system(x, entity),
            ),
    {
        let ghost orig = self.selected@;
        let mut i: usize = 0;
        let ghost j: int = 0;
        while i < self.selected.len()
            invariant
                0 <= i as int <= j <= orig.len(),
                self.selected@ =~= orig.take(j).filter(|x: SolarSystem| !same_system(x, entity))
                    + orig.skip(j),
                i as int == orig.take(j).filter(|x: SolarSystem| !same_system(x, entity)).len(),
            decreases orig.len() - j,
        {
            let ghost pre = self.selected@;
            proof {
                assert(pre[i as int] == orig[j]);
                assert(orig.take(j + 1).drop_last() == orig.take(j));
                reveal(Seq::filter);
            }
            if systems_equal(&self.selected[i], &entity) {
                self.selected.remove(i);
                proof {
                    assert(self.selected@ =~= orig.take(j + 1).filter(
                        |x: SolarSystem| !same_system(x, entity),
                    ) + orig.skip(j + 1));
                }
            } else {
                i = i + 1;
                proof {
                    assert(self.selected@ =~= orig.take(j + 1).filter(
                        |x: SolarSystem| !same_system(x, entity),
                    ) + orig.skip(j + 1));
                }
            }
            proof {
                j = j + 1;
            }
        }
        proof {
            assert(j == orig.len());
            assert(orig.take(j) =~= orig);
            assert(self.selected@ =~= orig.filter(|x: SolarSystem| !same_system(x, entity)));
        }
    }

    /// Clears the selection.
    pub fn clear(&mut self)
        ensures
            final(self).selected@ == Seq::<SolarSystem>::empty(),
    {
        self.selected = Vec::new();
    }

    /// Returns a copy of all selected systems, in order.
    pub fn get_all(&self) -> (r: Vec<SolarSystem>)
        ensures
            r@.len() == self.selected@.len(),
            forall|i: int|
                0 <= i < r@.len() ==> crate::solar_system::system_data_eq(
                    #[trigger] r@[i],
                    self.selected@[i],
                ),
    {
        let mut out: Vec<SolarSystem> = Vec::new();
        let mut i: usize = 0;
        while i < self.selected.len()
            invariant
                i <= self.selected.len(),
                out@.len() == i,
                forall|k: int|
                    0 <= k < i ==> crate::solar_system::system_data_eq(
                        #[trigger] out@[k],
                        self.selected@[k],
                    ),
            decreases self.selected.len() - i,
        {
            out.push(self.selected[i].clone());
            i = i + 1;
        }
        out
    }

    /// Returns how many systems are selected.
    pub fn count(&self) -> (r: usize)
        ensures
            r == self.selected@.len(),
    {
        self.selected.len()
    }

    /// Get a selected system by index.
    pub fn get(&self, index: usize) -> (r: Option<SolarSystem>)
        ensures
            match r {
                Some(sys) => index < self.selected@.len() && crate::solar_system::system_data_eq(
                    sys,
                    self.selected@[index as int],
                ),
                None => index >= self.selected@.len(),
            },
    {
        if index < self.selected.len() {
            Some(self.selected[index].clone())
        } else {
            None
        }
    }
}

} // verus!
