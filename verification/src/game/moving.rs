//! The lists of what a frame draws beside the models: dropped items, orbs, falling and
//! primed blocks, projectiles, what players hold and the plates over heads.

use vstd::prelude::*;
use crate::item::{stack_view, ItemModel, SlotItem};
use crate::packets::Real64;
use super::drawing::{
    block_of, dropped_stack, held_stack, item_of, orb_cell, plate_of, primed_look, primed_tnt,
    projectile, Plate, PlateModel, Primed, SeenEntity,
};
use super::dispatch::EntityKind;
use super::rules::BlockState;
use super::state::GameState;

verus! {

/// The values that there are among the first `n`, each with its place.
pub open spec fn listed<T>(values: Seq<Option<T>>, n: int) -> Seq<(int, T)>
    decreases n,
{
    if n <= 0 {
        Seq::empty()
    } else {
        match values[n - 1] {
            Some(value) => listed(values, n - 1).push((n - 1, value)),
            None => listed(values, n - 1),
        }
    }
}

/// All values that there are, each with its place.
pub open spec fn all_listed<T>(values: Seq<Option<T>>) -> Seq<(int, T)> {
    listed(values, values.len() as int)
}

/// Plain values with their places.
pub open spec fn placed_values<T>(list: Seq<(usize, T)>) -> Seq<(int, T)> {
    Seq::new(list.len(), |i: int| (list[i].0 as int, list[i].1))
}

/// Stacks with their places.
pub open spec fn placed_stacks(list: Seq<(usize, SlotItem)>) -> Seq<(int, ItemModel)> {
    Seq::new(list.len(), |i: int| (list[i].0 as int, list[i].1@))
}

/// Plates with their places.
pub open spec fn placed_plates(list: Seq<(usize, Plate)>) -> Seq<(int, PlateModel)> {
    Seq::new(list.len(), |i: int| (list[i].0 as int, list[i].1@))
}

/// One of a projectile's item.
pub open spec fn single(id: i16) -> ItemModel {
    ItemModel { id: id as int, count: 1, damage: 0, nbt: None }
}

/// The dropped stacks to draw.
pub open spec fn dropped_stacks(g: GameState, entities: Seq<SeenEntity>) -> Seq<Option<ItemModel>> {
    Seq::new(entities.len(), |i: int| stack_view(dropped_stack(g, entities[i])))
}

/// The cells of the orbs to draw.
pub open spec fn orb_cells(g: GameState, entities: Seq<SeenEntity>) -> Seq<Option<u32>> {
    Seq::new(entities.len(), |i: int| orb_cell(g, entities[i]))
}

/// The falling blocks to draw.
pub open spec fn falling_ones(g: GameState, entities: Seq<SeenEntity>) -> Seq<Option<BlockState>> {
    Seq::new(entities.len(), |i: int| block_of(g, entities[i]))
}

/// The primed explosives to draw, with the age of each entity.
pub open spec fn primed_ones(entities: Seq<SeenEntity>, ages: Seq<u64>, partial: u64) -> Seq<
    Option<Primed>,
> {
    Seq::new(
        entities.len(),
        |i: int|
            if entities[i].kind == EntityKind::Object(50) {
                Some(primed_look(ages[i], partial))
            } else {
                None
            },
    )
}

/// The projectiles to draw.
pub open spec fn projectile_items(entities: Seq<SeenEntity>) -> Seq<Option<ItemModel>> {
    Seq::new(
        entities.len(),
        |i: int|
            match item_of(entities[i]) {
                Some(id) => Some(single(id)),
                None => None,
            },
    )
}

/// What players hold.
pub open spec fn held_stacks(g: GameState, entities: Seq<SeenEntity>) -> Seq<Option<ItemModel>> {
    Seq::new(entities.len(), |i: int| held_stack(g, entities[i]))
}

/// The plates that are not hidden, with the distance of each entity.
pub open spec fn plates(g: GameState, entities: Seq<SeenEntity>, distances: Seq<Real64>) -> Seq<
    Option<PlateModel>,
> {
    Seq::new(
        entities.len(),
        |i: int|
            match plate_of(g, entities[i], distances[i]) {
                PlateModel::Hidden => None,
                plate => Some(plate),
            },
    )
}

fn add_stack(list: &mut Vec<(usize, SlotItem)>, place: usize, stack: Option<SlotItem>)
    ensures
        placed_stacks(final(list)@) == match stack {
            Some(item) => placed_stacks(old(list)@).push((place as int, item@)),
            None => placed_stacks(old(list)@),
        },
{
    if let Some(item) = stack {
        list.push((place, item));
        assert(placed_stacks(list@) =~= placed_stacks(old(list)@).push((place as int, item@)));
    }
}

fn add_value<T>(list: &mut Vec<(usize, T)>, place: usize, value: Option<T>)
    ensures
        placed_values(final(list)@) == match value {
            Some(v) => placed_values(old(list)@).push((place as int, v)),
            None => placed_values(old(list)@),
        },
{
    if let Some(v) = value {
        list.push((place, v));
        assert(placed_values(list@) =~= placed_values(old(list)@).push((place as int, v)));
    }
}

impl GameState {
    /// The dropped stacks to draw, each with the place of its entity.
    pub fn dropped_items(&self, entities: &Vec<SeenEntity>) -> (items: Vec<(usize, SlotItem)>)
        ensures
            placed_stacks(items@) == all_listed(dropped_stacks(*self, entities@)),
    {
        let mut items: Vec<(usize, SlotItem)> = Vec::new();
        let ghost all = dropped_stacks(*self, entities@);
        let mut i: usize = 0;
        assert(placed_stacks(items@) =~= listed(all, 0));
        while i < entities.len()
            invariant
                i <= entities@.len(),
                all == dropped_stacks(*self, entities@),
                placed_stacks(items@) == listed(all, i as int),
            decreases entities@.len() - i,
        {
            add_stack(&mut items, i, self.dropped_item(&entities[i]));
            i += 1;
        }
        items
    }

    /// The sprite cells of the experience orbs to draw.
    pub fn xp_orbs(&self, entities: &Vec<SeenEntity>) -> (orbs: Vec<(usize, u32)>)
        ensures
            placed_values(orbs@) == all_listed(orb_cells(*self, entities@)),
    {
        let mut orbs: Vec<(usize, u32)> = Vec::new();
        let ghost all = orb_cells(*self, entities@);
        let mut i: usize = 0;
        assert(placed_values(orbs@) =~= listed(all, 0));
        while i < entities.len()
            invariant
                i <= entities@.len(),
                all == orb_cells(*self, entities@),
                placed_values(orbs@) == listed(all, i as int),
            decreases entities@.len() - i,
        {
            add_value(&mut orbs, i, self.xp_orb(&entities[i]));
            i += 1;
        }
        orbs
    }

    /// The falling blocks to draw.
    pub fn falling_block_cubes(&self, entities: &Vec<SeenEntity>) -> (cubes: Vec<
        (usize, BlockState),
    >)
        ensures
            placed_values(cubes@) == all_listed(falling_ones(*self, entities@)),
    {
        let mut cubes: Vec<(usize, BlockState)> = Vec::new();
        let ghost all = falling_ones(*self, entities@);
        let mut i: usize = 0;
        assert(placed_values(cubes@) =~= listed(all, 0));
        while i < entities.len()
            invariant
                i <= entities@.len(),
                all == falling_ones(*self, entities@),
                placed_values(cubes@) == listed(all, i as int),
            decreases entities@.len() - i,
        {
            add_value(&mut cubes, i, self.falling_block(&entities[i]));
            i += 1;
        }
        cubes
    }

    /// The primed explosives to draw, `partial` billionths into a tick, given the age of
    /// each entity.
    pub fn primed_tnt_cubes(&self, entities: &Vec<SeenEntity>, ages: &Vec<u64>, partial: u64) -> (cubes:
        Vec<(usize, Primed)>)
        requires
            ages@.len() == entities@.len(),
            partial <= 1_000_000_000,
        ensures
            placed_values(cubes@) == all_listed(primed_ones(entities@, ages@, partial)),
    {
        let mut cubes: Vec<(usize, Primed)> = Vec::new();
        let ghost all = primed_ones(entities@, ages@, partial);
        let mut i: usize = 0;
        assert(placed_values(cubes@) =~= listed(all, 0));
        while i < entities.len()
            invariant
                i <= entities@.len(),
                ages@.len() == entities@.len(),
                partial <= 1_000_000_000,
                all == primed_ones(entities@, ages@, partial),
                placed_values(cubes@) == listed(all, i as int),
            decreases entities@.len() - i,
        {
            add_value(&mut cubes, i, primed_tnt(entities[i].kind, ages[i], partial));
            i += 1;
        }
        cubes
    }

    /// The projectiles to draw: one of the item that stands for each.
    pub fn projectiles(&self, entities: &Vec<SeenEntity>) -> (sprites: Vec<(usize, SlotItem)>)
        ensures
            placed_stacks(sprites@) == all_listed(projectile_items(entities@)),
    {
        let mut sprites: Vec<(usize, SlotItem)> = Vec::new();
        let ghost all = projectile_items(entities@);
        let mut i: usize = 0;
        assert(placed_stacks(sprites@) =~= listed(all, 0));
        while i < entities.len()
            invariant
                i <= entities@.len(),
                all == projectile_items(entities@),
                placed_stacks(sprites@) == listed(all, i as int),
            decreases entities@.len() - i,
        {
            let sprite = match projectile(&entities[i]) {
                Some(id) => Some(SlotItem::new(id, 1, 0)),
                None => None,
            };
            add_stack(&mut sprites, i, sprite);
            i += 1;
        }
        sprites
    }

    /// What the players other than the local one hold.
    pub fn player_held_items(&self, entities: &Vec<SeenEntity>) -> (items: Vec<(usize, SlotItem)>)
        requires
            self.wf(),
        ensures
            placed_stacks(items@) == all_listed(held_stacks(*self, entities@)),
    {
        let mut items: Vec<(usize, SlotItem)> = Vec::new();
        let ghost all = held_stacks(*self, entities@);
        let mut i: usize = 0;
        assert(placed_stacks(items@) =~= listed(all, 0));
        while i < entities.len()
            invariant
                i <= entities@.len(),
                self.wf(),
                all == held_stacks(*self, entities@),
                placed_stacks(items@) == listed(all, i as int),
            decreases entities@.len() - i,
        {
            add_stack(&mut items, i, self.player_held_item(&entities[i]));
            i += 1;
        }
        items
    }

    /// The plates to draw over heads, given how far each entity's head is from the eye.
    pub fn player_nametags(&self, entities: &Vec<SeenEntity>, distances: &Vec<Real64>) -> (tags: Vec<
        (usize, Plate),
    >)
        requires
            distances@.len() == entities@.len(),
        ensures
            placed_plates(tags@) == all_listed(plates(*self, entities@, distances@)),
    {
        let mut tags: Vec<(usize, Plate)> = Vec::new();
        let ghost all = plates(*self, entities@, distances@);
        let mut i: usize = 0;
        assert(placed_plates(tags@) =~= listed(all, 0));
        while i < entities.len()
            invariant
                i <= entities@.len(),
                distances@.len() == entities@.len(),
                all == plates(*self, entities@, distances@),
                placed_plates(tags@) == listed(all, i as int),
            decreases entities@.len() - i,
        {
            let ghost before = placed_plates(tags@);
            let plate = self.nametag(&entities[i], distances[i]);
            if !matches!(plate, Plate::Hidden) {
                tags.push((i, plate));
                assert(placed_plates(tags@) =~= before.push((i as int, plate@)));
            }
            i += 1;
        }
        tags
    }
}

/// What is drawn stands in the order of the entities, each at most once.
pub proof fn law_lists_keep_the_order<T>(values: Seq<Option<T>>, n: int, i: int, j: int)
    requires
        n <= values.len(),
        0 <= i < j < listed(values, n).len(),
    ensures
        listed(values, n)[i].0 < listed(values, n)[j].0 < n,
    decreases n,
{
    if n > 0 {
        if values[n - 1] is Some && j == listed(values, n - 1).len() {
            lemma_places_below(values, n - 1, i);
        } else {
            law_lists_keep_the_order(values, n - 1, i, j);
        }
    }
}

proof fn lemma_places_below<T>(values: Seq<Option<T>>, n: int, i: int)
    requires
        0 <= i < listed(values, n).len(),
    ensures
        listed(values, n)[i].0 < n,
    decreases n,
{
    if n > 0 && i < listed(values, n - 1).len() {
        lemma_places_below(values, n - 1, i);
    }
}

} // verus!
