//! The per-tick collision snapshot. The engine's collision-start events
//! are drained once into a read-only buffer at the start of the tick;
//! every handler then walks its own view of the same buffer.

use vstd::prelude::*;

verus! {

/// One collision-start event between two entities, by their handles.
#[derive(Clone, Copy, PartialEq, Eq, Structural, Debug)]
pub struct CollisionPair {
    pub a: u64,
    pub b: u64,
}

/// The partners a given entity collided with this tick, in event order.
pub open spec fn spec_partners(events: Seq<CollisionPair>, entity: u64) -> Seq<u64>
    decreases events.len(),
{
    if events.len() == 0 {
        Seq::empty()
    } else {
        let init = spec_partners(events.drop_last(), entity);
        let p = events.last();
        if p.a == entity {
            init.push(p.b)
        } else if p.b == entity {
            init.push(p.a)
        } else {
            init
        }
    }
}

/// Collects the entities a given entity collided with this tick; an
/// event is inspected exactly once.
pub fn collisions_involving(events: &Vec<CollisionPair>, entity: u64) -> (partners: Vec<u64>)
    ensures
        partners@ == spec_partners(events@, entity),
{
    let mut out: Vec<u64> = Vec::new();
    let mut i: usize = 0;
    while i < events.len()
        invariant
            i <= events@.len(),
            out@ == spec_partners(events@.subrange(0, i as int), entity),
        decreases events@.len() - i,
    {
        let p = events[i];
        if p.a == entity {
            out.push(p.b);
        } else if p.b == entity {
            out.push(p.a);
        }
        proof {
            assert(events@.subrange(0, i as int + 1).drop_last() =~= events@.subrange(0, i as int));
            assert(events@.subrange(0, i as int + 1).last() == events@[i as int]);
        }
        i = i + 1;
    }
    proof {
        assert(events@.subrange(0, events@.len() as int) =~= events@);
    }
    out
}

/// Whether a collision list mentions the given entity.
pub fn contains_entity(partners: &Vec<u64>, entity: u64) -> (r: bool)
    ensures
        r == partners@.contains(entity),
{
    let mut i: usize = 0;
    while i < partners.len()
        invariant
            i <= partners@.len(),
            forall|j: int| 0 <= j < i ==> partners@[j] != entity,
        decreases partners@.len() - i,
    {
        if partners[i] == entity {
            proof {
                assert(partners@.contains(entity));
            }
            return true;
        }
        i = i + 1;
    }
    false
}

} // verus!
