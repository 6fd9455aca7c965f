//! What the client remembers of other entities besides where they are.

use std::collections::HashMap;
use vstd::prelude::*;
use vstd::std_specs::hash::*;
use crate::item::SlotItem;
use super::dispatch::EntityKind;
use super::rules::{projectile_physics, spec_projectile_physics, BlockState};

verus! {

broadcast use group_hash_axioms;

/// Places of worn and held equipment: held, boots, leggings, chestplate, helmet.
pub const EQUIPMENT_SLOTS: usize = 5;

/// The block a falling-block entity shows, packed in its spawn data: twelve bits
/// of number, then four of metadata.
pub open spec fn spec_packed_block(data: i32) -> BlockState {
    BlockState { id: (data & 0xfff) as u16, meta: ((data >> 12) & 0xf) as u8 }
}

/// The block a falling-block entity shows.
pub fn packed_block(data: i32) -> (block: BlockState)
    ensures
        block == spec_packed_block(data),
        block.id < 0x1000,
        block.meta < 16,
{
    assert(0 <= (data & 0xfff) < 0x1000 && 0 <= ((data >> 12) & 0xf) < 16) by (bit_vector);
    BlockState { id: (data & 0xfff) as u16, meta: ((data >> 12) & 0xf) as u8 }
}

// ── How entities move ─────────────────────────────────────────────────────

/// A hit on these slows a sprinting attacker: players, and objects but for dropped
/// items, which cannot be hit. A mob's hit is decided by the server alone.
pub open spec fn spec_slows(kind: EntityKind) -> bool {
    match kind {
        EntityKind::RemotePlayer => true,
        EntityKind::Object(k) => k != 2,
        _ => false,
    }
}

/// A hit slows a sprinting attacker.
pub open spec fn attacker_slowed(kind: Option<EntityKind>) -> bool {
    match kind {
        Some(k) => spec_slows(k),
        None => false,
    }
}

/// Whether a hit slows a sprinting attacker; nothing is known of what is not there.
pub fn slows_attacker(kind: Option<EntityKind>) -> (yes: bool)
    ensures
        yes == attacker_slowed(kind),
{
    match kind {
        Some(EntityKind::RemotePlayer) => true,
        Some(EntityKind::Object(k)) => k != 2,
        _ => false,
    }
}

/// How an entity moves in a tick.
#[derive(Debug, Clone, Copy, PartialEq, Eq, Structural)]
pub enum EntityMotion {
    /// The player's own is moved otherwise.
    Own,
    /// Toward where the server last said it is.
    Follow,
    /// It falls as an item does.
    Item,
    /// It flies: its fall a tick and what of its speed it keeps, in hundredths, and
    /// whether it sticks in blocks.
    Flight { gravity: i32, drag: i32, sticks: bool },
}

/// How an entity moves in a tick: items and flying projectiles that the server has not
/// corrected are moved here, the others follow the server.
pub open spec fn spec_motion(kind: EntityKind, own: bool, corrected: bool, moving: bool) -> EntityMotion {
    if own {
        EntityMotion::Own
    } else if corrected {
        EntityMotion::Follow
    } else if kind == EntityKind::Object(2) {
        EntityMotion::Item
    } else {
        match kind {
            EntityKind::Object(k) => match spec_projectile_physics(k as int) {
                Some((gravity, drag, sticks)) => if moving {
                    EntityMotion::Flight { gravity, drag, sticks }
                } else {
                    EntityMotion::Follow
                },
                None => EntityMotion::Follow,
            },
            _ => EntityMotion::Follow,
        }
    }
}

/// How an entity moves in a tick.
pub fn entity_motion(kind: EntityKind, own: bool, corrected: bool, moving: bool) -> (motion:
    EntityMotion)
    ensures
        motion == spec_motion(kind, own, corrected, moving),
{
    if own {
        return EntityMotion::Own;
    }
    if corrected {
        return EntityMotion::Follow;
    }
    match kind {
        EntityKind::Object(k) => {
            if k == 2 {
                return EntityMotion::Item;
            }
            match projectile_physics(k) {
                Some((gravity, drag, sticks)) => if moving {
                    EntityMotion::Flight { gravity, drag, sticks }
                } else {
                    EntityMotion::Follow
                },
                None => EntityMotion::Follow,
            }
        },
        _ => EntityMotion::Follow,
    }
}

// ── Who rides what ────────────────────────────────────────────────────────

/// Passengers and their vehicles.
#[derive(Debug)]
pub struct Riders {
    pub pairs: Vec<(i32, i32)>,
}

/// The vehicle of a passenger.
pub open spec fn vehicle_in(pairs: Seq<(i32, i32)>, passenger: i32) -> Option<i32>
    decreases pairs.len(),
{
    if pairs.len() == 0 {
        None
    } else if pairs.last().0 == passenger {
        Some(pairs.last().1)
    } else {
        vehicle_in(pairs.drop_last(), passenger)
    }
}

/// Nobody rides two vehicles.
pub open spec fn one_each(pairs: Seq<(i32, i32)>) -> bool {
    forall|i: int, j: int|
        0 <= i < j < pairs.len() ==> (#[trigger] pairs[i]).0 != (#[trigger] pairs[j]).0
}

proof fn lemma_vehicle_in(pairs: Seq<(i32, i32)>, passenger: i32)
    ensures
        vehicle_in(pairs, passenger) is Some ==> exists|i: int|
            0 <= i < pairs.len() && (#[trigger] pairs[i]).0 == passenger && pairs[i].1
                == vehicle_in(pairs, passenger)->0,
        vehicle_in(pairs, passenger) is None ==> forall|i: int|
            0 <= i < pairs.len() ==> (#[trigger] pairs[i]).0 != passenger,
    decreases pairs.len(),
{
    if pairs.len() > 0 && pairs.last().0 != passenger {
        lemma_vehicle_in(pairs.drop_last(), passenger);
        if vehicle_in(pairs.drop_last(), passenger) is Some {
            let i = choose|i: int|
                0 <= i < pairs.drop_last().len() && (#[trigger] pairs.drop_last()[i]).0
                    == passenger && pairs.drop_last()[i].1 == vehicle_in(
                    pairs.drop_last(),
                    passenger,
                )->0;
            assert(pairs[i] == pairs.drop_last()[i]);
        } else {
            assert forall|i: int| 0 <= i < pairs.len() implies (#[trigger] pairs[i]).0
                != passenger by {
                if i < pairs.len() - 1 {
                    assert(pairs.drop_last()[i] == pairs[i]);
                }
            }
        }
    } else if pairs.len() > 0 {
        assert(pairs[pairs.len() - 1].0 == passenger);
    }
}

impl Riders {
    pub open spec fn wf(&self) -> bool {
        one_each(self.pairs@)
    }

    /// The vehicle of a passenger.
    pub open spec fn vehicle(&self, passenger: i32) -> Option<i32> {
        vehicle_in(self.pairs@, passenger)
    }

    pub fn new() -> (r: Riders)
        ensures
            r.wf(),
            forall|p: i32| #[trigger] r.vehicle(p) is None,
    {
        Riders { pairs: Vec::new() }
    }

    /// The vehicle of a passenger.
    pub fn vehicle_of(&self, passenger: i32) -> (vehicle: Option<i32>)
        ensures
            vehicle == self.vehicle(passenger),
    {
        let mut n: usize = self.pairs.len();
        assert(self.pairs@.take(n as int) =~= self.pairs@);
        while n > 0
            invariant
                n <= self.pairs@.len(),
                vehicle_in(self.pairs@, passenger) == vehicle_in(
                    self.pairs@.take(n as int),
                    passenger,
                ),
            decreases n,
        {
            assert(self.pairs@.take(n as int).drop_last() =~= self.pairs@.take(n - 1));
            assert(self.pairs@.take(n as int).last() == self.pairs@[n - 1]);
            let (p, v) = self.pairs[n - 1];
            if p == passenger {
                return Some(v);
            }
            n -= 1;
        }
        None
    }

    /// Take out every pair with this passenger, or with this vehicle.
    fn retain(&mut self, passenger: Option<i32>, vehicle: Option<i32>)
        requires
            old(self).wf(),
        ensures
            final(self).wf(),
            forall|p: i32|
                #[trigger] final(self).vehicle(p) == if passenger == Some(p) || (vehicle is Some
                    && old(self).vehicle(p) == vehicle) {
                    None
                } else {
                    old(self).vehicle(p)
                },
    {
        let ghost before = self.pairs@;
        let mut kept: Vec<(i32, i32)> = Vec::new();
        let mut i: usize = 0;
        while i < self.pairs.len()
            invariant
                i <= self.pairs@.len(),
                self.pairs@ == before,
                one_each(before),
                one_each(kept@),
                forall|k: int|
                    0 <= k < kept@.len() ==> exists|m: int|
                        0 <= m < i && before[m] == #[trigger] kept@[k],
                forall|p: i32|
                    #[trigger] vehicle_in(kept@, p) == if passenger == Some(p) || (vehicle is Some
                        && vehicle_in(before.take(i as int), p) == vehicle) {
                        None
                    } else {
                        vehicle_in(before.take(i as int), p)
                    },
            decreases self.pairs@.len() - i,
        {
            let (p, v) = self.pairs[i];
            let drop_passenger = match passenger {
                Some(q) => q == p,
                None => false,
            };
            let drop_vehicle = match vehicle {
                Some(w) => w == v,
                None => false,
            };
            let ghost then = kept@;
            proof {
                lemma_vehicle_in(before.take(i as int), p);
                lemma_vehicle_in(then, p);
                assert forall|m: int| 0 <= m < i implies (#[trigger] before[m]).0 != p by {
                    assert(before[m].0 != before[i as int].0);
                }
                if vehicle_in(before.take(i as int), p) is Some {
                    let m = choose|m: int|
                        0 <= m < before.take(i as int).len() && (#[trigger] before.take(
                            i as int,
                        )[m]).0 == p && before.take(i as int)[m].1 == vehicle_in(
                            before.take(i as int),
                            p,
                        )->0;
                    assert(before.take(i as int)[m] == before[m]);
                }
                assert(vehicle_in(before.take(i as int), p) is None);
            }
            if !drop_passenger && !drop_vehicle {
                kept.push((p, v));
                assert(kept@.drop_last() =~= then);
            }
            i += 1;
            proof {
                assert(before.take(i as int).drop_last() =~= before.take(i - 1));
                assert(before.take(i as int).last() == before[i - 1]);
                assert forall|k: int| 0 <= k < kept@.len() implies exists|m: int|
                    0 <= m < i && before[m] == #[trigger] kept@[k] by {
                    if k < then.len() {
                        assert(kept@[k] == then[k]);
                        let m = choose|m: int| 0 <= m < i - 1 && before[m] == then[k];
                        assert(before[m] == kept@[k]);
                    } else {
                        assert(before[i - 1] == kept@[k]);
                    }
                }
                assert forall|a: int, b: int| 0 <= a < b < kept@.len() implies (
                #[trigger] kept@[a]).0 != (#[trigger] kept@[b]).0 by {
                    assert(kept@[a] == then[a]);
                    if b < then.len() {
                        assert(kept@[b] == then[b]);
                    } else {
                        let m = choose|m: int| 0 <= m < i - 1 && before[m] == then[a];
                        assert(before[m].0 != before[i - 1].0);
                    }
                }
                assert forall|q: i32|
                    #[trigger] vehicle_in(kept@, q) == if passenger == Some(q) || (vehicle is Some
                        && vehicle_in(before.take(i as int), q) == vehicle) {
                        None
                    } else {
                        vehicle_in(before.take(i as int), q)
                    } by {
                    assert(vehicle_in(then, q) == if passenger == Some(q) || (vehicle is Some
                        && vehicle_in(before.take(i - 1), q) == vehicle) {
                        None
                    } else {
                        vehicle_in(before.take(i - 1), q)
                    });
                }
            }
        }
        assert(before.take(i as int) =~= before);
        self.pairs = kept;
        assert forall|p: i32|
            #[trigger] self.vehicle(p) == if passenger == Some(p) || (vehicle is Some
                && old(self).vehicle(p) == vehicle) {
                None
            } else {
                old(self).vehicle(p)
            } by {
            assert(self.vehicle(p) == vehicle_in(kept@, p));
        }
    }

    /// A passenger leaves its vehicle.
    pub fn dismount(&mut self, passenger: i32)
        requires
            old(self).wf(),
        ensures
            final(self).wf(),
            forall|p: i32|
                #[trigger] final(self).vehicle(p) == if p == passenger {
                    None
                } else {
                    old(self).vehicle(p)
                },
    {
        self.retain(Some(passenger), None);
    }

    /// A passenger mounts a vehicle, leaving the one before.
    pub fn mount(&mut self, passenger: i32, vehicle: i32)
        requires
            old(self).wf(),
        ensures
            final(self).wf(),
            forall|p: i32|
                #[trigger] final(self).vehicle(p) == if p == passenger {
                    Some(vehicle)
                } else {
                    old(self).vehicle(p)
                },
    {
        self.dismount(passenger);
        let ghost left = *self;
        let ghost alone = self.pairs@;
        proof {
            assert(self.vehicle(passenger) is None);
            lemma_vehicle_in(alone, passenger);
        }
        self.pairs.push((passenger, vehicle));
        assert(self.pairs@.drop_last() =~= alone);
        assert forall|p: i32|
            #[trigger] self.vehicle(p) == if p == passenger {
                Some(vehicle)
            } else {
                old(self).vehicle(p)
            } by {
            assert(left.vehicle(p) == if p == passenger {
                None
            } else {
                old(self).vehicle(p)
            });
        }
    }

    /// An entity is gone: it rides nothing, and nobody rides it.
    pub fn forget(&mut self, entity: i32)
        requires
            old(self).wf(),
        ensures
            final(self).wf(),
            forall|p: i32|
                #[trigger] final(self).vehicle(p) == if p == entity || old(self).vehicle(p)
                    == Some(entity) {
                    None
                } else {
                    old(self).vehicle(p)
                },
    {
        self.retain(Some(entity), Some(entity));
    }
}

// ── Tables ────────────────────────────────────────────────────────────────

/// What is known of entities by their number.
#[derive(Debug)]
pub struct EntityTables {
    /// The account of a player.
    pub uuids: HashMap<i32, [u8; 16]>,
    /// The stack of a dropped item.
    pub items: HashMap<i32, SlotItem>,
    /// The worth of an experience orb.
    pub xp: HashMap<i32, i16>,
    /// The block of a falling block.
    pub falling: HashMap<i32, BlockState>,
    /// What an entity wears and holds.
    pub equipment: HashMap<i32, Vec<Option<SlotItem>>>,
    pub riders: Riders,
}

/// What an entity wears: nothing where nothing is known.
pub open spec fn worn(equipment: Map<i32, Vec<Option<SlotItem>>>, entity: i32) -> Seq<
    Option<SlotItem>,
> {
    if equipment.dom().contains(entity) {
        equipment[entity]@
    } else {
        Seq::new(EQUIPMENT_SLOTS as nat, |i: int| None)
    }
}

impl EntityTables {
    pub open spec fn wf(&self) -> bool {
        &&& self.riders.wf()
        &&& forall|e: i32| (#[trigger] worn(self.equipment@, e)).len() == EQUIPMENT_SLOTS
    }

    pub fn new() -> (t: EntityTables)
        ensures
            t.wf(),
            t.uuids@ == Map::<i32, [u8; 16]>::empty(),
            t.items@ == Map::<i32, SlotItem>::empty(),
            t.xp@ == Map::<i32, i16>::empty(),
            t.falling@ == Map::<i32, BlockState>::empty(),
            t.equipment@ == Map::<i32, Vec<Option<SlotItem>>>::empty(),
            forall|p: i32| #[trigger] t.riders.vehicle(p) is None,
    {
        EntityTables {
            uuids: HashMap::new(),
            items: HashMap::new(),
            xp: HashMap::new(),
            falling: HashMap::new(),
            equipment: HashMap::new(),
            riders: Riders::new(),
        }
    }

    /// An entity puts something on, or takes it off; places that there are not
    /// change nothing.
    pub fn handle_entity_equipment(&mut self, entity: i32, slot: i16, item: Option<SlotItem>)
        requires
            old(self).wf(),
        ensures
            final(self).wf(),
            *final(self) == (EntityTables { equipment: final(self).equipment, ..*old(self) }),
            !(0 <= slot < EQUIPMENT_SLOTS) ==> *final(self) == *old(self),
            0 <= slot < EQUIPMENT_SLOTS ==> {
                &&& final(self).equipment@.dom() == old(self).equipment@.dom().insert(entity)
                &&& forall|e: i32|
                    #[trigger] worn(final(self).equipment@, e) == if e == entity {
                        worn(old(self).equipment@, e).update(slot as int, item)
                    } else {
                        worn(old(self).equipment@, e)
                    }
            },
    {
        if slot < 0 || slot as usize >= EQUIPMENT_SLOTS {
            return ;
        }
        let ghost before = self.equipment@;
        let mut places: Vec<Option<SlotItem>> = match self.equipment.remove(&entity) {
            Some(places) => places,
            None => {
                let mut places: Vec<Option<SlotItem>> = Vec::new();
                places.push(None);
                places.push(None);
                places.push(None);
                places.push(None);
                places.push(None);
                places
            },
        };
        assert(places@ =~= worn(before, entity));
        places.set(slot as usize, item);
        self.equipment.insert(entity, places);
        assert(self.equipment@.dom() =~= before.dom().insert(entity));
        assert forall|e: i32|
            #[trigger] worn(self.equipment@, e) == if e == entity {
                worn(before, e).update(slot as int, item)
            } else {
                worn(before, e)
            } by {}
    }

    /// An entity is gone, with everything known of it.
    pub fn remove_entity(&mut self, entity: i32)
        requires
            old(self).wf(),
        ensures
            final(self).wf(),
            final(self).forgot(old(self), entity),
    {
        let ghost before = *self;
        self.uuids.remove(&entity);
        self.items.remove(&entity);
        self.xp.remove(&entity);
        self.falling.remove(&entity);
        self.equipment.remove(&entity);
        self.riders.forget(entity);
        assert(self.uuids@ =~= before.uuids@.remove(entity));
        assert(self.items@ =~= before.items@.remove(entity));
        assert(self.xp@ =~= before.xp@.remove(entity));
        assert(self.falling@ =~= before.falling@.remove(entity));
        assert(self.equipment@ =~= before.equipment@.remove(entity));
        assert forall|e: i32| (#[trigger] worn(self.equipment@, e)).len() == EQUIPMENT_SLOTS by {
            assert(worn(before.equipment@, e).len() == EQUIPMENT_SLOTS);
        }
    }

    /// These tables are the others without one entity.
    pub open spec fn forgot(&self, other: &EntityTables, entity: i32) -> bool {
        &&& self.uuids@ == other.uuids@.remove(entity)
        &&& self.items@ == other.items@.remove(entity)
        &&& self.xp@ == other.xp@.remove(entity)
        &&& self.falling@ == other.falling@.remove(entity)
        &&& self.equipment@ == other.equipment@.remove(entity)
        &&& forall|p: i32|
            #[trigger] self.riders.vehicle(p) == if p == entity || other.riders.vehicle(p) == Some(
                entity,
            ) {
                None
            } else {
                other.riders.vehicle(p)
            }
    }
}

} // verus!
