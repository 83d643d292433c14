use vstd::prelude::*;

use crate::entity::Entity;

verus! {

/// The entity side of a world: it hands out entities with ids 0, 1, 2, ...
pub struct World {
    id: usize,
}

impl World {
    /// The id that the next spawned entity receives.
    pub closed spec fn next_id(&self) -> nat {
        self.id as nat
    }

    /// A world that has spawned nothing yet.
    pub fn new() -> (world: Self)
        ensures
            world.next_id() == 0,
    {
        Self { id: 0 }
    }

    /// Hands out a new entity, whose id no earlier spawn of this world gave.
    pub fn spawn(&mut self) -> (e: Entity)
        requires
            old(self).next_id() < usize::MAX,
        ensures
            e.id == old(self).next_id(),
            final(self).next_id() == old(self).next_id() + 1,
    {
        let e = Entity { id: self.id };
        self.id += 1;
        e
    }

    /// How many entities this world has spawned.
    pub fn spawned(&self) -> (n: usize)
        ensures
            n == self.next_id(),
    {
        self.id
    }
}

/// Of two lists of entities, the shorter one; the first on a tie.
pub fn shorter_of_two<'a>(a: &'a [Entity], b: &'a [Entity]) -> (r: &'a [Entity])
    ensures
        r@ == if b@.len() < a@.len() {
            b@
        } else {
            a@
        },
{
    if b.len() < a.len() {
        b
    } else {
        a
    }
}

/// Of three lists of entities, the shortest one; the earliest on a tie.
pub fn shortest_of_three<'a>(a: &'a [Entity], b: &'a [Entity], c: &'a [Entity]) -> (r: &'a [Entity])
    ensures
        r@.len() <= a@.len(),
        r@.len() <= b@.len(),
        r@.len() <= c@.len(),
        r@ == if a@.len() <= b@.len() && a@.len() <= c@.len() {
            a@
        } else if b@.len() <= c@.len() {
            b@
        } else {
            c@
        },
{
    let ab = shorter_of_two(a, b);
    shorter_of_two(ab, c)
}

} // verus!
