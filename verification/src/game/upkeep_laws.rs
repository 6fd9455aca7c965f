//! What else the running game keeps up: the player's window, riding, reach, urgent meshes,
//! the lists of what is drawn, and how a game starts.

use vstd::prelude::*;
use crate::item::{stack_view, SlotItem};
use crate::packets::ServerboundPacket;
use super::aim::{spec_block_reach, spec_entity_reach};
use super::commands::Clock;
use super::dispatch::EntityKind;
use super::drawing::{
    are_block_plans, block_model, dropped_stack, item_of, plate_of, BlockModel, BlockPlan,
    PlateModel,    SeenEntity,
};
use super::fixtures::{BlockPos, Sign};
use super::moving::{dropped_stacks, listed, orb_cells, plates, primed_ones, projectile_items};
use super::music::MusicModel;
use super::residency::{urgent_taken, Residency};
use super::sections::SectionPos;
use super::sounds::{spec_note_event, Mood};
use super::state::{demo_hotbar, local_hotbar, ridden, sprint_ticked, stocked, GameState, Session};
use super::terrain::{relit, Terrain};
use super::weather::{curtain, curtain_at, landing_splash, splashes_upto, Falling, Landing, Splash};
use super::windows::{
    closed_by_player, drag_begun, drag_dropped, is_player_window, offer_chosen, Windows,
};
use super::worldgen::{seed_offset, spec_height, spec_sample_point};

verus! {

// ── Windows ───────────────────────────────────────────────────────────────

/// Closing a window tells the server which one, and ends what was begun in it; without one
/// nothing is told. What the player has stays.
pub proof fn law_the_server_is_told_of_the_closed_window(
    before: Windows,
    after: Windows,
    packet: Option<ServerboundPacket>,
)
    requires
        closed_by_player(before, after, packet),
    ensures
        after.open_container is None,
        after.cursor_item is None,
        !after.drag_active,
        after.drag_slots@.len() == 0,
        after.inventory == before.inventory,
        before.open_container is None <==> packet is None,
        before.open_container matches Some(c) ==> (packet matches Some(
            ServerboundPacket::CloseWindow { window_id },
        ) && window_id == c.window_id),
{
}

/// A drag needs a carried stack; begun, it has painted nothing, and given up, it is over.
/// Neither moves a stack.
pub proof fn law_drags_begin_and_end_without_moving(
    before: Windows,
    button: i8,
    begun: Windows,
    after: Windows,
)
    requires
        drag_begun(before, button, begun),
        drag_dropped(begun, after),
    ensures
        before.cursor_item is Some ==> begun.drag_active && begun.drag_button == button
            && begun.drag_slots@.len() == 0,
        before.cursor_item is None ==> begun == before,
        !after.drag_active,
        after.drag_slots@.len() == 0,
        after.inventory == before.inventory,
        after.cursor_item == before.cursor_item,
        after.open_container == before.open_container,
{
}

/// A chosen offer is one that there is, and the server is asked for exactly that one.
pub proof fn law_chosen_offers_exist(
    before: Windows,
    index: usize,
    after: Windows,
    packet: Option<ServerboundPacket>,
)
    requires
        offer_chosen(before, index, after, packet),
    ensures
        before.open_container is None ==> packet is None && after == before,
        before.open_container matches Some(c) ==> (after.open_container matches Some(d) && {
            &&& index < c.trades@.len() ==> d.selected_trade == index
            &&& c.trades@.len() > 0 ==> d.selected_trade < c.trades@.len()
            &&& index >= c.trades@.len() && c.trades@.len() > 0 ==> d.selected_trade
                == c.trades@.len() - 1
            &&& d.trades == c.trades
            &&& (packet matches Some(ServerboundPacket::PluginMessage { channel, data }) && channel@
                == "MC|TrSel"@ && crate::nbt::be_i32(data@, 0) == d.selected_trade)
        }),
        after.inventory == before.inventory,
        after.cursor_item == before.cursor_item,
{
}

/// The player's own window is number nought, has no title and no places of its own, and
/// shows the whole inventory.
pub proof fn law_the_players_window_is_its_own(
    c: crate::container::state::Container,
    i: int,
)
    requires
        is_player_window(c),
        0 <= i < 45,
    ensures
        c.window_id == 0,
        c.kind is Player,
        c.title@.len() == 0,
        c.container_inv@.len() == 0,
        c.slots@.len() == 45,
        c.slots@[i].back == crate::container::state::SlotBack::Player(i as usize),
        c.action == 0,
{
    crate::container::layout_laws::law_the_players_window_shows_the_inventory(i);
}

// ── The player ────────────────────────────────────────────────────────────

/// Movement is reported, and a correction confirmed, only in a joined game whose server has
/// said where the player is.
pub proof fn law_only_the_placed_report(s: Session)
    ensures
        s.placed() <==> s.joined_game && s.position_synced,
        s.confirms() <==> s.pending_confirm && s.joined_game && s.position_synced,
        s.has_sky_light <==> s.lit_dimension() == 0,
        !s.has_sky_light <==> s.lit_dimension() == -1,
{
}

/// A rider whose vehicle is in the world rides along and does not sprint; anybody else goes
/// on as before.
pub proof fn law_riders_do_not_sprint(
    before: GameState,
    in_world: bool,
    after: GameState,
    rides: bool,
)
    requires
        ridden(before, in_world, after, rides),
    ensures
        rides <==> in_world && before.tables.riders.vehicle(before.session.player_id) is Some,
        rides ==> !after.hands@.sprinting,
        !rides ==> after.hands@.sprinting == before.hands.sprinting,
        after.hands@.selected_slot == before.hands@.selected_slot,
        after.motion == before.motion,
        after.tables == before.tables,
{
}

/// Whoever is hungry, uses an item or runs into a wall does not sprint after the tick; whoever
/// holds the sprint key and runs freely does.
pub proof fn law_sprints_follow_the_rules(
    before: GameState,
    on_ground: bool,
    collided_horizontally: bool,
    after: GameState,
)
    requires
        sprint_ticked(before, on_ground, collided_horizontally, after),
    ensures
        collided_horizontally || before.hands@.using_item() || before.input.sneak
            || !before.input.forward ==> !after.hands@.sprinting,
        before.vitals.food <= 6 && !before.motion.capabilities.allow_flying
            ==> !after.hands@.sprinting,
        !collided_horizontally && !before.hands@.using_item() && !before.input.sneak
            && before.input.forward && !before.input.backward && before.vitals.food > 6 && (
        before.input.sprint || before.hands.sprinting) ==> after.hands@.sprinting,
        after.hands@.selected_slot == before.hands@.selected_slot,
        after.vitals == before.vitals,
        after.input == before.input,
{
}

/// Creative players reach half a block farther for blocks and twice as far for entities.
pub proof fn law_creative_players_reach_farther()
    ensures
        spec_block_reach(true) == spec_block_reach(false) + 5,
        spec_entity_reach(true) == 2 * spec_entity_reach(false),
        spec_block_reach(false) == 45,
        spec_entity_reach(false) == 30,
{
}

/// Between two ticks the time passes evenly: at the whole tick it is the next tick's, where
/// the day does not end.
pub proof fn law_time_passes_evenly(c: Clock)
    requires
        c.wf(),
        0 <= c.world_time + c.time_rate < 24000,
    ensures
        c.time_after(0) == c.world_time * 1_000_000_000,
        c.time_after(1_000_000_000) == c.step().world_time * 1_000_000_000,
        !c.daylight_cycle ==> c.time_after(500_000_000) == c.time_after(0),
{
    if c.daylight_cycle {
        assert((c.world_time + c.time_rate) % 24000 == c.world_time + c.time_rate);
        let (a, b) = (c.world_time as int, c.time_rate as int);
        assert(a * 1_000_000_000 + b * 1_000_000_000 == (a + b) * 1_000_000_000)
            by (nonlinear_arith);
    }
}

/// Only silence is news of a track: one that was not playing is not started by hearing it.
pub proof fn law_only_silence_is_news(m: MusicModel)
    ensures
        m.heard(true) == m,
        !m.heard(false).playing,
        m.heard(false).current == m.current,
        m.heard(false).delay == m.delay,
{
}

/// A cave is heard at a dark place away from the player, and then not for five minutes at
/// least; at any other place nothing is heard, and the next tick listens again.
pub proof fn law_caves_are_heard_in_the_dark(
    mood: Mood,
    air: bool,
    block_light: u8,
    sky_light: u8,
    away: bool,
    after: Mood,
    heard: Option<u16>,
)
    requires
        mood.listened(air, block_light, sky_light, away, after, heard),
    ensures
        heard is Some ==> air && away && sky_light == 0 && block_light < 8 && 6000
            <= after.countdown < 18000,
        air && away && sky_light == 0 && block_light == 0 ==> heard is Some,
        heard is None ==> after == mood,
        after.lcg == mood.lcg,
{
}

/// Note blocks sound by their instrument, and as a harp by any unknown one.
pub proof fn law_instruments_have_their_sound(a: int, b: int)
    requires
        0 <= a <= 4,
        0 <= b <= 4,
    ensures
        spec_note_event(a) == spec_note_event(b) <==> a == b,
        spec_note_event(0) == "note.harp"@,
        spec_note_event(1) == "note.bd"@,
        spec_note_event(2) == "note.snare"@,
        spec_note_event(3) == "note.hat"@,
        spec_note_event(4) == "note.bassattack"@,
        spec_note_event(9) == "note.harp"@,
{
    reveal_strlit("note.harp");
    reveal_strlit("note.bd");
    reveal_strlit("note.snare");
    reveal_strlit("note.hat");
    reveal_strlit("note.bassattack");
    assert("note.harp"@.len() == 9 && "note.bd"@.len() == 7 && "note.snare"@.len() == 10
        && "note.hat"@.len() == 8 && "note.bassattack"@.len() == 15);
}

// ── Meshes ────────────────────────────────────────────────────────────────

/// What the player changed is handed out once and leaves both queues; the rest stays.
pub proof fn law_urgent_sections_are_handed_out_once(
    before: Residency,
    after: Residency,
    taken: Seq<SectionPos>,
    s: SectionPos,
)
    requires
        urgent_taken(before, after, taken),
    ensures
        taken.contains(s) <==> before.urgent@.contains(s),
        !after.urgent@.contains(s),
        after.dirty@.contains(s) <==> before.dirty@.contains(s) && !before.urgent@.contains(s),
        taken.no_duplicates(),
{
    assert(taken.contains(s) <==> taken.to_set().contains(s));
}

/// Sections whose light changed are meshed at once; those of the sky's light only where
/// there is a sky.
pub proof fn law_relit_sections_are_meshed_at_once(
    before: Terrain,
    block_light: Seq<SectionPos>,
    sky_light: Seq<SectionPos>,
    has_sky_light: bool,
    after: Terrain,
    s: SectionPos,
)
    requires
        relit(before, block_light, sky_light, has_sky_light, after),
    ensures
        after.residency.urgent@.contains(s) <==> before.residency.urgent@.contains(s)
            || block_light.contains(s) || (has_sky_light && sky_light.contains(s)),
        after.residency.dirty@.contains(s) <==> before.residency.dirty@.contains(s)
            || block_light.contains(s) || (has_sky_light && sky_light.contains(s)),
        after.columns == before.columns,
        after.pending == before.pending,
{
    assert(block_light.to_set().contains(s) <==> block_light.contains(s));
    assert(sky_light.to_set().contains(s) <==> sky_light.contains(s));
}

// ── Lists of what is drawn ────────────────────────────────────────────────

/// Of a row of things those that there are are listed, each with its place.
pub proof fn law_what_there_is_is_listed<T>(values: Seq<Option<T>>, n: int, k: int, value: T)
    requires
        0 <= n <= values.len(),
    ensures
        listed(values, n).contains((k, value)) <==> 0 <= k < n && values[k] == Some(value),
    decreases n,
{
    if n > 0 {
        law_what_there_is_is_listed(values, n - 1, k, value);
        let rest = listed(values, n - 1);
        let all = listed(values, n);
        match values[n - 1] {
            Some(last) => {
                assert(all == rest.push((n - 1, last)));
                assert(all[rest.len() as int] == (n - 1, last));
                if rest.contains((k, value)) {
                    let i = choose|i: int| 0 <= i < rest.len() && rest[i] == (k, value);
                    assert(all[i] == (k, value));
                }
                if all.contains((k, value)) {
                    let i = choose|i: int| 0 <= i < all.len() && all[i] == (k, value);
                    if i < rest.len() {
                        assert(rest[i] == (k, value));
                    }
                }
            },
            None => {},
        }
    }
}

/// The stacks to draw are those of the dropped items whose stack is known; a projectile is
/// drawn as one of its item; explosives by their age; plates that are hidden not at all.
pub proof fn law_things_to_draw_are_of_their_entity(
    g: GameState,
    entities: Seq<SeenEntity>,
    ages: Seq<u64>,
    distances: Seq<crate::packets::Real64>,
    partial: u64,
    i: int,
)
    requires
        0 <= i < entities.len(),
        ages.len() == entities.len(),
        distances.len() == entities.len(),
    ensures
        dropped_stacks(g, entities)[i] == stack_view(dropped_stack(g, entities[i])),
        orb_cells(g, entities)[i] is Some <==> entities[i].kind == EntityKind::ExperienceOrb,
        primed_ones(entities, ages, partial)[i] is Some <==> entities[i].kind
            == EntityKind::Object(50),
        projectile_items(entities)[i] matches Some(item) ==> item.count == 1 && item.damage == 0 && (
        item_of(entities[i]) matches Some(id) && item.id == id),
        projectile_items(entities)[i] is None <==> item_of(entities[i]) is None,
        plates(g, entities, distances)[i] is None <==> plate_of(g, entities[i], distances[i])
            == PlateModel::Hidden,
{
}

/// The models of blocks are drawn at the blocks that have one, in order.
pub proof fn law_blocks_with_models_are_drawn(
    drawn: Seq<BlockPlan>,
    signs: Seq<Sign>,
    sites: Seq<(BlockPos, u16)>,
    n: int,
    i: int,
)
    requires
        are_block_plans(drawn, signs, sites, n),
        0 <= n <= sites.len(),
        0 <= i < drawn.len(),
    ensures
        drawn[i].index < n,
        block_model(sites[drawn[i].index as int].1) == Some(drawn[i].model),
        i > 0 ==> drawn[i - 1].index < drawn[i].index,
    decreases n,
{
    if n > 0 {
        if block_model(sites[n - 1].1) is None {
            law_blocks_with_models_are_drawn(drawn, signs, sites, n - 1, i);
        } else if i < drawn.len() - 1 {
            law_blocks_with_models_are_drawn(drawn.drop_last(), signs, sites, n - 1, i);
            if i > 0 {
                assert(drawn.drop_last()[i - 1] == drawn[i - 1]);
            }
        } else if i > 0 {
            law_blocks_with_models_are_drawn(drawn.drop_last(), signs, sites, n - 1, i - 1);
        }
    }
}

/// No curtain of rain is drawn twice, and each hangs over the cell it is of: cells go along
/// x first, then along z, around the eye.
pub proof fn law_curtains_hang_over_their_cell(
    cx: int,
    cy: int,
    cz: int,
    radius: int,
    cells: Seq<Option<Falling>>,
    force_snow: bool,
    n: int,
    i: int,
)
    requires
        0 <= n <= cells.len(),
        0 <= i < curtain(cx, cy, cz, radius, cells, force_snow, n).len(),
        radius >= 0,
    ensures
        exists|k: int|
            0 <= k < n && Some(curtain(cx, cy, cz, radius, cells, force_snow, n)[i])
                == #[trigger] curtain_at(
                cx - radius + k % (2 * radius + 1),
                cz - radius + k / (2 * radius + 1),
                cy,
                radius,
                cells[k],
                force_snow,
            ),
        curtain(cx, cy, cz, radius, cells, force_snow, n).len() <= n,
    decreases n,
{
    if n > 0 {
        let rest = curtain(cx, cy, cz, radius, cells, force_snow, n - 1);
        let all = curtain(cx, cy, cz, radius, cells, force_snow, n);
        lemma_curtain_len(cx, cy, cz, radius, cells, force_snow, n - 1);
        if i < rest.len() {
            law_curtains_hang_over_their_cell(cx, cy, cz, radius, cells, force_snow, n - 1, i);
            let k = choose|k: int|
                0 <= k < n - 1 && Some(rest[i]) == #[trigger] curtain_at(
                    cx - radius + k % (2 * radius + 1),
                    cz - radius + k / (2 * radius + 1),
                    cy,
                    radius,
                    cells[k],
                    force_snow,
                );
            assert(all[i] == rest[i]);
            assert(Some(all[i]) == curtain_at(
                cx - radius + k % (2 * radius + 1),
                cz - radius + k / (2 * radius + 1),
                cy,
                radius,
                cells[k],
                force_snow,
            ));
        } else {
            let k = n - 1;
            assert(Some(all[i]) == curtain_at(
                cx - radius + k % (2 * radius + 1),
                cz - radius + k / (2 * radius + 1),
                cy,
                radius,
                cells[k],
                force_snow,
            ));
        }
    }
}

proof fn lemma_curtain_len(
    cx: int,
    cy: int,
    cz: int,
    radius: int,
    cells: Seq<Option<Falling>>,
    force_snow: bool,
    n: int,
)
    requires
        0 <= n,
    ensures
        curtain(cx, cy, cz, radius, cells, force_snow, n).len() <= n,
    decreases n,
{
    if n > 0 {
        lemma_curtain_len(cx, cy, cz, radius, cells, force_snow, n - 1);
    }
}

/// A splash is listed for each drop that makes one, with the drop's number, in order.
pub proof fn law_splashes_are_of_their_drop(
    landings: Seq<Option<Landing>>,
    ey: int,
    force_snow: bool,
    n: int,
    i: int,
)
    requires
        0 <= n <= landings.len() <= usize::MAX,
        0 <= i < splashes_upto(landings, ey, force_snow, n).len(),
    ensures
        ({
            let (drop, splash) = splashes_upto(landings, ey, force_snow, n)[i];
            &&& 0 <= drop < n
            &&& splash == landing_splash(landings[drop as int], ey, force_snow)
            &&& splash != Splash::Nothing
            &&& landings[drop as int] is Some
        }),
    decreases n,
{
    if n > 0 {
        let rest = splashes_upto(landings, ey, force_snow, n - 1);
        if i < rest.len() {
            law_splashes_are_of_their_drop(landings, ey, force_snow, n - 1, i);
        }
    }
}

// ── Worlds ────────────────────────────────────────────────────────────────

/// The surface follows the height field between five and two hundred and forty, and stops
/// there; higher ground is never lower.
pub proof fn law_surfaces_stay_in_the_world(a: int, b: int)
    requires
        a <= b,
    ensures
        5 <= spec_height(a) <= spec_height(b) <= 240,
        5 <= a <= 240 ==> spec_height(a) == a,
{
}

/// A world's seed only moves it within the height field, by less than two to the fifteenth
/// either way, and by the same for every column.
pub proof fn law_seeds_move_worlds(seed: i64, x: i32, z: i32)
    requires
        -0x10_0000 <= x < 0x10_0000,
        -0x10_0000 <= z < 0x10_0000,
    ensures
        -0x8000 <= seed_offset(seed) < 0x8000,
        spec_sample_point(seed, x, z).0 - x == spec_sample_point(seed, 0, 0).0,
        spec_sample_point(seed, x, z).1 - z == spec_sample_point(seed, 0, 0).1,
        spec_sample_point(seed, 0, 0).0 == seed_offset(seed),
        spec_sample_point(seed, 0, 0).1 == seed_offset(seed >> 16),
{
    let other = seed >> 16;
    assert(0 <= (seed & 0xffff) < 0x1_0000) by (bit_vector);
    assert(0 <= (other & 0xffff) < 0x1_0000) by (bit_vector);
}

/// A stocked hotbar holds full stacks from its first slot on, and the player nothing else; a
/// world of one's own starts with nine kinds of blocks, a demo with six.
pub proof fn law_hotbars_are_stocked(
    inventory: Seq<Option<SlotItem>>,
    blocks: Seq<i16>,
    i: int,
)
    requires
        stocked(inventory, blocks),
        blocks.len() <= 9,
        0 <= i < 45,
    ensures
        36 <= i < 36 + blocks.len() ==> (stack_view(inventory[i]) matches Some(s) && s.count == 64
            && s.id == blocks[i - 36]),
        i < 36 || i >= 36 + blocks.len() ==> inventory[i] is None,
        local_hotbar().len() == 9,
        demo_hotbar().len() == 6,
{
    if 36 <= i < 36 + blocks.len() {
        assert(inventory[36 + (i - 36)] == inventory[i]);
    }
}

/// A game starts unjoined, alive and whole, with no window, no chat and a clear sky.
pub proof fn law_games_start_empty(g: GameState)
    requires
        g.at_the_start(),
    ensures
        !g.session.joined_game,
        !g.session.position_synced,
        g.session.has_sky_light,
        !g.vitals.is_dead,
        g.vitals.food == 20,
        g.vitals.xp_level == 0,
        !g.vitals.health_received,
        g.windows.open_container is None,
        g.windows.cursor_item is None,
        !g.windows.drag_active,
        g.chat.lines@.len() == 0,
        !g.weather.raining && !g.weather.thundering && g.weather.rain == 0,
        !g.input.forward && !g.input.jump && !g.input.sneak,
        g.terrain.pending@.len() == 0,
        !g.pending_actions.attack_pressed && !g.pending_actions.use_pressed,
        g.pending_actions.slot_select is None,
{
    assert(g.vitals@.is_dead == g.vitals.is_dead);
    assert(g.vitals@.food == g.vitals.food);
    assert(g.vitals@.xp_level == g.vitals.xp_level);
    assert(g.vitals@.health_received == g.vitals.health_received);
}

/// Signs, enchanting tables and end portals have something drawn at them; no other block
/// has.
pub proof fn law_four_blocks_have_models(id: u16)
    ensures
        block_model(id) is Some <==> id == 63 || id == 68 || id == 116 || id == 119,
        block_model(id) == Some(BlockModel::StandingSign) <==> id == 63,
        block_model(id) == Some(BlockModel::WallSign) <==> id == 68,
        block_model(id) == Some(BlockModel::Book) <==> id == 116,
        block_model(id) == Some(BlockModel::EndPortal) <==> id == 119,
{
}

} // verus!
