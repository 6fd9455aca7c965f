//! What drawing decides: which entities are drawn and how, chests and signs, bars and
//! plates, and when a picture has to be made anew.

use vstd::prelude::*;
use crate::item::{stack_view, SlotItem};
use crate::packets::Real64;
use super::dispatch::EntityKind;
use super::drawing::{
    block_model, block_of, boss_of, chest_draw, chest_kind, counts, dropped_stack, fuse, has_bar,
    held_stack, item_of, orb_cell, plan_of, plans, plate_of, present, primed_look, row_of,
    text_shown, time_left, BlockModel, BossSight, ChestDraw, ChestKind, ChestSite, PlateModel,
    SeenEntity,
};
use super::entities::worn;
use super::fingerprint::{
    flag_word, flags_word, hand_word, state_words, use_word, view_words, worn_word, ViewKey,
};
use super::fixtures::{sign_text, BlockPos, Sign};
use super::interface::effects_listed;
use super::rules::{spec_held_state, spec_projectile_item, ItemUseAction};
use super::state::GameState;
use super::vitals::ActiveEffect;
use super::windows::worn_points;

verus! {

// ── Entities ──────────────────────────────────────────────────────────────

/// The player's own body, dropped items, orbs and what is far away are not drawn as models;
/// everything else is.
pub proof fn law_only_others_are_modelled(e: SeenEntity, player_id: i32)
    ensures
        counts(e, player_id) <==> e.id != player_id && e.kind != EntityKind::Object(2) && e.kind
            != EntityKind::ExperienceOrb && !e.far,
{
}

/// Each entity that counts and is in the picture is drawn once, in order, and no other is.
pub proof fn law_entities_are_drawn_once(
    g: GameState,
    entities: Seq<SeenEntity>,
    rows: Seq<([u8; 16], u32)>,
    n: int,
    i: int,
)
    requires
        0 <= n <= entities.len() <= usize::MAX,
        0 <= i < plans(g, entities, rows, n).len(),
    ensures
        ({
            let drawn = plans(g, entities, rows, n);
            let k = drawn[i].index;
            &&& 0 <= k < n
            &&& counts(entities[k as int], g.session.player_id)
            &&& !entities[k as int].out_of_view
            &&& drawn[i] == plan_of(g, entities, k as int, rows)
            &&& i > 0 ==> drawn[i - 1].index < k
        }),
    decreases n,
{
    if n > 0 {
        let before = plans(g, entities, rows, n - 1);
        if i < before.len() {
            law_entities_are_drawn_once(g, entities, rows, n - 1, i);
        } else if i > 0 {
            law_entities_are_drawn_once(g, entities, rows, n - 1, i - 1);
        }
    }
}

/// No entity that is to be drawn is left out.
pub proof fn law_no_entity_is_left_out(
    g: GameState,
    entities: Seq<SeenEntity>,
    rows: Seq<([u8; 16], u32)>,
    n: int,
    k: int,
)
    requires
        0 <= k < n <= entities.len() <= usize::MAX,
        counts(entities[k], g.session.player_id),
        !entities[k].out_of_view,
    ensures
        exists|i: int|
            0 <= i < plans(g, entities, rows, n).len() && (#[trigger] plans(
                g,
                entities,
                rows,
                n,
            )[i]).index == k,
    decreases n,
{
    let now = plans(g, entities, rows, n);
    let before = plans(g, entities, rows, n - 1);
    if k < n - 1 {
        law_no_entity_is_left_out(g, entities, rows, n - 1, k);
        let i = choose|i: int| 0 <= i < before.len() && (#[trigger] before[i]).index == k;
        assert(now[i].index == k);
    } else {
        assert(now[now.len() - 1].index == k);
    }
}

/// How an entity is drawn: the body unless invisible, red while hurt or dying, the arm and
/// armor of players alone, and the vehicle where it is there.
pub proof fn law_entities_are_drawn_as_they_are(
    g: GameState,
    entities: Seq<SeenEntity>,
    index: int,
    rows: Seq<([u8; 16], u32)>,
)
    requires
        0 <= index < entities.len() <= usize::MAX,
    ensures
        ({
            let e = entities[index];
            let p = plan_of(g, entities, index, rows);
            let places = worn(g.tables.equipment@, e.id);
            &&& p.index == index
            &&& p.body <==> !e.invisible
            &&& p.hurt <==> e.hurt_time > 0 || e.death_time > 0
            &&& !(e.kind is RemotePlayer) ==> p.armor is None && p.glint is None
                && p.held_item_right == 0 && p.skin_row is None
            &&& e.kind is RemotePlayer ==> p.held_item_right == spec_held_state(
                places[0],
                e.using_item,
            )
            &&& (p.armor matches Some(a) ==> {
                &&& places[1] matches Some(s) ==> a.feet == Some(s.id)
                &&& places[2] matches Some(s) ==> a.legs == Some(s.id)
                &&& places[3] matches Some(s) ==> a.chest == Some(s.id)
                &&& places[4] matches Some(s) ==> a.head == Some(s.id)
                &&& places[1] is None <==> a.feet is None
                &&& places[4] is None <==> a.head is None
            })
            &&& e.kind is RemotePlayer && (places[1] is Some || places[2] is Some || places[3] is Some
                || places[4] is Some) ==> p.armor is Some
            &&& (p.vehicle matches Some(v) ==> g.tables.riders.vehicle(e.id) == Some(v) && present(
                entities,
                v,
            ))
            &&& (g.tables.riders.vehicle(e.id) matches Some(v) ==> (present(entities, v)
                ==> p.vehicle == Some(v)))
            &&& (p.glint matches Some(s) ==> (s.head ==> places[4] is Some && e.shimmer.head) && (
            s.feet ==> places[1] is Some && e.shimmer.feet))
        }),
{
}

/// An empty hand hangs, a held item is held, and a blade in use is raised to block.
pub proof fn law_arms_are_held_by_what_they_hold(item: Option<SlotItem>, using_item: bool)
    ensures
        item is None ==> spec_held_state(item, using_item) == 0,
        item is Some && !using_item ==> spec_held_state(item, using_item) == 1,
        item matches Some(s) ==> (using_item && (s.id == 267 || s.id == 268 || s.id == 272 || s.id
            == 276 || s.id == 283) ==> spec_held_state(item, using_item) == 3),
        item matches Some(s) ==> (s.id == 261 ==> spec_held_state(item, using_item) == 1),
{
}

/// The skin of an account is in the first row listed for it, and in none if it is not
/// listed.
pub proof fn law_skins_are_found_by_account(
    rows: Seq<([u8; 16], u32)>,
    uuid: Seq<u8>,
    n: int,
    i: int,
)
    requires
        0 <= i < n <= rows.len(),
        rows[i].0@ == uuid,
        forall|j: int| 0 <= j < i ==> (#[trigger] rows[j]).0@ != uuid,
    ensures
        row_of(rows, uuid, n) == Some(rows[i].1),
    decreases n,
{
    if i < n - 1 {
        law_skins_are_found_by_account(rows, uuid, n - 1, i);
    } else {
        lemma_no_row(rows, uuid, n - 1);
    }
}

proof fn lemma_no_row(rows: Seq<([u8; 16], u32)>, uuid: Seq<u8>, n: int)
    requires
        n <= rows.len(),
        forall|j: int| 0 <= j < n ==> (#[trigger] rows[j]).0@ != uuid,
    ensures
        row_of(rows, uuid, n) is None,
    decreases n,
{
    if n > 0 {
        lemma_no_row(rows, uuid, n - 1);
    }
}

/// A dropped stack is drawn as what it is known to be; an orb by its worth, nothing where
/// that is unknown; and of others only players hold something.
pub proof fn law_things_are_drawn_as_known(g: GameState, e: SeenEntity)
    ensures
        e.kind != EntityKind::Object(2) ==> dropped_stack(g, e) is None,
        e.kind == EntityKind::Object(2) && g.tables.items@.dom().contains(e.id) ==> dropped_stack(
            g,
            e,
        ) == Some(g.tables.items@[e.id]),
        e.kind == EntityKind::Object(2) && !g.tables.items@.dom().contains(e.id) ==> dropped_stack(
            g,
            e,
        ) is None,
        orb_cell(g, e) is Some <==> e.kind == EntityKind::ExperienceOrb,
        e.kind == EntityKind::ExperienceOrb && !g.tables.xp@.dom().contains(e.id) ==> orb_cell(g, e)
            == Some(0u32),
        block_of(g, e) is Some <==> g.tables.falling@.dom().contains(e.id),
        block_of(g, e) matches Some(b) ==> b == g.tables.falling@[e.id],
        !(e.kind is RemotePlayer) || e.id == g.session.player_id ==> held_stack(g, e) is None,
        e.kind is RemotePlayer && e.id != g.session.player_id ==> held_stack(g, e) == stack_view(
            worn(g.tables.equipment@, e.id)[0],
        ),
{
}

/// What is thrown looks like the item that was thrown.
pub proof fn law_projectiles_look_like_their_item(e: SeenEntity)
    ensures
        item_of(e) is Some ==> e.kind is Object,
        e.kind == EntityKind::Object(61) ==> item_of(e) == Some(332i16),
        e.kind == EntityKind::Object(62) ==> item_of(e) == Some(344i16),
        e.kind == EntityKind::Object(65) ==> item_of(e) == Some(368i16),
        e.kind == EntityKind::Object(73) ==> item_of(e) == Some(373i16),
        e.kind == EntityKind::Object(75) ==> item_of(e) == Some(384i16),
        e.kind == EntityKind::Object(76) ==> item_of(e) == Some(401i16),
        e.kind == EntityKind::Object(60) || e.kind == EntityKind::Object(2) ==> item_of(e) is None,
{
}

/// No two kinds of projectile look the same.
pub proof fn law_projectiles_look_different(a: int, b: int)
    requires
        a != b,
        spec_projectile_item(a) is Some,
    ensures
        spec_projectile_item(a) != spec_projectile_item(b),
{
}

/// Primed explosives go off eighty ticks after their first; they swell over the last ten,
/// never shrinking, and flash every other five.
pub proof fn law_explosives_swell_at_the_end(age: u64, partial: u64)
    requires
        partial <= 1_000_000_000,
    ensures
        age < 80 ==> fuse(age) + age == 80,
        age >= 80 ==> fuse(age) == 0,
        time_left(age, partial) == (fuse(age) + 1) * 1_000_000_000 - partial,
        age < 70 ==> primed_look(age, partial).swell == 0,
        70 < age < 80 ==> primed_look(age, partial).swell == (age - 71) * 1_000_000_000 + partial,
        (fuse(age) / 5) % 2 == 1 ==> primed_look(age, partial).flash == 0,
{
}

// ── Chests and signs ──────────────────────────────────────────────────────

/// Chests, ender chests and trapped chests are drawn, and nothing else.
pub proof fn law_three_blocks_are_chests(id: u16)
    ensures
        chest_kind(id) == Some(ChestKind::Normal) <==> id == 54,
        chest_kind(id) == Some(ChestKind::Ender) <==> id == 130,
        chest_kind(id) == Some(ChestKind::Trapped) <==> id == 146,
{
}

/// A chest beside its like, across the way that it faces, is half of a large one, drawn by
/// the half to the west or north; an ender chest and one beside anything else is drawn by
/// itself.
pub proof fn law_pairs_are_large(site: ChestSite)
    ensures
        ({
            let draw = chest_draw(site);
            let kind = chest_kind(site.block.id);
            &&& kind is None ==> draw == ChestDraw::Skip
            &&& kind == Some(ChestKind::Ender) ==> draw == ChestDraw::Single(ChestKind::Ender)
            &&& kind is Some && kind != Some(ChestKind::Ender) && (site.block.meta == 2
                || site.block.meta == 3) ==> {
                &&& site.west == site.block.id <==> draw == ChestDraw::Skip
                &&& site.west != site.block.id && site.east == site.block.id ==> draw
                    == (ChestDraw::Large { kind: kind->0, dx: 1, dz: 0 })
                &&& site.west != site.block.id && site.east != site.block.id ==> draw
                    == ChestDraw::Single(kind->0)
            }
            &&& kind is Some && kind != Some(ChestKind::Ender) && (site.block.meta == 4
                || site.block.meta == 5) ==> {
                &&& site.north == site.block.id <==> draw == ChestDraw::Skip
                &&& site.north != site.block.id && site.south == site.block.id ==> draw
                    == (ChestDraw::Large { kind: kind->0, dx: 0, dz: 1 })
                &&& site.north != site.block.id && site.south != site.block.id ==> draw
                    == ChestDraw::Single(kind->0)
            }
        }),
{
}

/// Signs, standing or on a wall, the book of an enchanting table and end portals have
/// models; text is drawn on signs that say something.
pub proof fn law_signs_show_their_text(signs: Seq<Sign>, id: u16, pos: BlockPos)
    ensures
        block_model(id) == Some(BlockModel::StandingSign) <==> id == 63,
        block_model(id) == Some(BlockModel::WallSign) <==> id == 68,
        block_model(id) == Some(BlockModel::Book) <==> id == 116,
        block_model(id) == Some(BlockModel::EndPortal) <==> id == 119,
        text_shown(signs, id, pos) ==> id == 63 || id == 68,
        sign_text(signs, pos) is None ==> !text_shown(signs, id, pos),
        sign_text(signs, pos) matches Some(lines) ==> ((id == 63 || id == 68) && lines.len() > 0
            && lines[0].len() > 0 ==> text_shown(signs, id, pos)),
{
}

// ── Bars and plates ───────────────────────────────────────────────────────

/// Withers and dragons are bosses, of three hundred and two hundred points; one has a bar
/// while it lives and is no more than eighty blocks away.
pub proof fn law_living_bosses_have_bars(s: BossSight)
    ensures
        s.kind == EntityKind::Mob(64) ==> boss_of(s.kind) == Some((300u32, "Wither")),
        s.kind == EntityKind::Mob(63) ==> boss_of(s.kind) == Some((200u32, "Ender Dragon")),
        has_bar(s) ==> s.kind == EntityKind::Mob(63) || s.kind == EntityKind::Mob(64),
        has_bar(s) ==> (s.health matches Some(h) && h.bits > 0 && h.bits < 0x8000_0000),
        has_bar(s) && s.distance.bits <= 0x7ff0_0000_0000_0000 ==> s.distance.bits
            <= 0x4054_0000_0000_0000,
        s.health matches Some(h) ==> (0 < h.bits <= 0x7f80_0000 && s.distance.bits
            <= 0x4054_0000_0000_0000 && (s.kind == EntityKind::Mob(63) || s.kind
            == EntityKind::Mob(64)) ==> has_bar(s)),
{
}

/// Nobody sees their own plate, nor one farther than sixty-four blocks; a visible name of
/// its own goes before the listed one, which players alone have.
pub proof fn law_plates_show_names(g: GameState, e: SeenEntity, distance: Real64)
    ensures
        ({
            let plate = plate_of(g, e, distance);
            let near = distance.bits <= 0x4050_0000_0000_0000;
            &&& e.id == g.session.player_id ==> plate == PlateModel::Hidden
            &&& !near && distance.bits <= 0x7ff0_0000_0000_0000 ==> plate == PlateModel::Hidden
            &&& near && e.id != g.session.player_id ==> {
                &&& e.custom_name_visible ==> (e.custom_name matches Some(name) ==> plate
                    == PlateModel::Own(name@))
                &&& (!e.custom_name_visible || e.custom_name is None) && !(e.kind is RemotePlayer)
                    ==> plate == PlateModel::Hidden
                &&& (!e.custom_name_visible || e.custom_name is None) && e.kind is RemotePlayer
                    && g.tables.uuids@.dom().contains(e.id) ==> plate == PlateModel::Listed(
                    g.tables.uuids@[e.id],
                )
            }
        }),
{
}

/// The armor points of the player are those of the four pieces worn, added up.
pub proof fn law_armor_points_add_up(inventory: Seq<Option<crate::item::ItemModel>>)
    requires
        inventory.len() == 45,
    ensures
        inventory[5] is None && inventory[6] is None && inventory[7] is None && inventory[8] is None
            ==> worn_points(inventory, 4) == 0,
        inventory[5] matches Some(helmet) ==> (inventory[6] is None && inventory[7] is None
            && inventory[8] is None ==> worn_points(inventory, 4)
            == super::rules::spec_armor_points(helmet.id)),
        inventory[8] matches Some(boots) ==> (inventory[5] is None && inventory[6] is None
            && inventory[7] is None ==> worn_points(inventory, 4) == super::rules::spec_armor_points(
            boots.id,
        )),
{
    reveal_with_fuel(worn_points, 5);
}

/// The effects are listed by rising number, exactly the active ones, with their strength and
/// time.
pub proof fn law_effects_are_listed(effects: Map<u8, ActiveEffect>, from: int, e: (u8, i8, i32))
    requires
        0 <= from,
    ensures
        effects_listed(effects, from).contains(e) <==> e.0 >= from && effects.dom().contains(e.0)
            && effects[e.0].amplifier == e.1 && effects[e.0].duration == e.2,
        forall|i: int|
            0 <= i < effects_listed(effects, from).len() ==> from <= (#[trigger] effects_listed(
                effects,
                from,
            )[i]).0,
        forall|i: int, j: int|
            0 <= i < j < effects_listed(effects, from).len() ==> (#[trigger] effects_listed(
                effects,
                from,
            )[i]).0 < (#[trigger] effects_listed(effects, from)[j]).0,
    decreases 256 - from,
{
    if from < 256 {
        law_effects_are_listed(effects, from + 1, e);
        let rest = effects_listed(effects, from + 1);
        let all = effects_listed(effects, from);
        if effects.dom().contains(from as u8) {
            let a = effects[from as u8];
            let first = (from as u8, a.amplifier, a.duration);
            assert(all == seq![first] + rest);
            assert(all[0] == first);
            assert forall|i: int| 0 < i < all.len() implies all[i] == rest[i - 1] by {}
            if rest.contains(e) {
                let k = choose|k: int| 0 <= k < rest.len() && rest[k] == e;
                assert(all[k + 1] == e);
            }
            if all.contains(e) {
                let k = choose|k: int| 0 <= k < all.len() && all[k] == e;
                if k > 0 {
                    assert(rest[k - 1] == e);
                }
            }
        }
    }
}

// ── Noticing changes ──────────────────────────────────────────────────────

/// Two stacks in hand are told apart by item, count and wear; worn ones by item and wear.
pub proof fn law_other_stacks_are_noticed(a: SlotItem, b: SlotItem)
    ensures
        hand_word(Some(a)) == hand_word(Some(b)) ==> a.id == b.id && a.count == b.count && a.damage
            == b.damage,
        worn_word(Some(a)) == worn_word(Some(b)) ==> a.id == b.id && a.damage == b.damage,
{
    let (i, c, d) = (a.id, a.count, a.damage);
    let (j, e, f) = (b.id, b.count, b.damage);
    assert((((i as u16) as u64) << 24 | (c as u64) << 16 | (d as u16) as u64) == (((j as u16) as u64)
        << 24 | (e as u64) << 16 | (f as u16) as u64) ==> i == j && c == e && d == f)
        by (bit_vector);
    assert((((i as u16) as u64) << 16 | (d as u16) as u64) == (((j as u16) as u64) << 16 | (
    f as u16) as u64) ==> i == j && d == f) by (bit_vector);
}

/// Ways to use an item are told apart.
pub proof fn law_other_uses_are_noticed(a: ItemUseAction, b: ItemUseAction)
    ensures
        use_word(a) == use_word(b) <==> a == b,
{
}

/// A view that differs in the camera, the light, the hand or what it does gives other words;
/// how long an item has been used counts while it is.
pub proof fn law_other_views_are_noticed(
    v: ViewKey,
    w: ViewKey,
    item: Option<SlotItem>,
    other: Option<SlotItem>,
    action: ItemUseAction,
    act: ItemUseAction,
)
    requires
        view_words(v, item, action) == view_words(w, other, act),
    ensures
        v.camera@ == w.camera@,
        v.sun == w.sun,
        v.brightness == w.brightness,
        v.hud_visible == w.hud_visible,
        hand_word(item) == hand_word(other),
        v.hand@ == w.hand@,
        action == act,
        action != ItemUseAction::Nothing ==> v.use_ticks == w.use_ticks,
{
    let a = view_words(v, item, action);
    let b = view_words(w, other, act);
    assert(v.camera@ =~= a.subrange(0, 5));
    assert(w.camera@ =~= b.subrange(0, 5));
    assert(a[5] == v.sun && b[5] == w.sun);
    assert(a[6] == v.brightness && b[6] == w.brightness);
    assert(a[7] == flag_word(v.hud_visible) && b[7] == flag_word(w.hud_visible));
    assert(a[8] == hand_word(item) && b[8] == hand_word(other));
    assert(v.hand@ =~= a.subrange(9, 13));
    assert(w.hand@ =~= b.subrange(9, 13));
    assert(a[13] == use_word(action) && b[13] == use_word(act));
    if action != ItemUseAction::Nothing {
        assert(a[14] == v.use_ticks && b[14] == w.use_ticks);
    }
}

/// An entity that moves, is hurt, dies, or changes how it stands gives other words.
pub proof fn law_other_states_are_noticed(a: SeenEntity, b: SeenEntity)
    requires
        state_words(a) == state_words(b),
    ensures
        a.pose@ == b.pose@,
        a.hurt_time == b.hurt_time,
        a.death_roll == b.death_roll,
        a.sneaking == b.sneaking,
        a.invisible == b.invisible,
        a.using_item == b.using_item,
        a.custom_name_visible == b.custom_name_visible,
{
    let u = state_words(a);
    let v = state_words(b);
    assert(a.pose@ =~= u.subrange(1, 10));
    assert(b.pose@ =~= v.subrange(1, 10));
    assert(u[10] == a.hurt_time as u64 && v[10] == b.hurt_time as u64);
    assert(u[11] == a.death_roll && v[11] == b.death_roll);
    assert(u[12] == flags_word(a) && v[12] == flags_word(b));
    let (p, q, r, s) = (
        flag_word(a.using_item),
        flag_word(a.sneaking),
        flag_word(a.invisible),
        flag_word(a.custom_name_visible),
    );
    let (k, l, m, n) = (
        flag_word(b.using_item),
        flag_word(b.sneaking),
        flag_word(b.invisible),
        flag_word(b.custom_name_visible),
    );
    assert(p <= 1 && q <= 1 && r <= 1 && s <= 1 && k <= 1 && l <= 1 && m <= 1 && n <= 1 && (p << 3 | q
        << 2 | r << 1 | s) == (k << 3 | l << 2 | m << 1 | n) ==> p == k && q == l && r == m && s
        == n) by (bit_vector);
}

} // verus!
