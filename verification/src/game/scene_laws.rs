//! What the world around the player does by itself: weather, music, sounds, and entities
//! that the server does not move.

use vstd::prelude::*;
use super::actions::{fresh, interacted, nearest_slot, overlay_of, ScreenOverlay};
use super::dispatch::EntityKind;
use super::entities::{spec_motion, spec_packed_block, spec_slows, worn, EntityMotion};
use super::music::{spec_desired, MusicModel, MusicOrder, MusicType};
use super::player::HandsModel;
use super::rules::{spec_projectile_physics, BlockState};
use super::sounds::{
    landing_sounds, orphaned, silent_carts, sounding, spec_effect_event, spec_material, step_sounds,
    EntitySound, Material, Mood, Move, MoveSound, Steps,
};
use super::weather::{
    aged, curtain_at, spec_drop_offset, spec_drops, spec_landing, spec_splash, Falling, Landing,
    LightningBolt, Splash, Weather,
};
use crate::item::SlotItem;
use crate::packets::{Real32, ServerboundPacket, UseEntityKind};

verus! {

// ── Weather ───────────────────────────────────────────────────────────────

/// Rain comes up over a hundred ticks and goes down over as many: a hundredth each, towards
/// full while it rains and towards none while it does not; thunder likewise.
pub proof fn law_weather_comes_and_goes_by_hundredths(w: Weather)
    requires
        w.wf(),
    ensures
        ({
            let after = w.step();
            &&& after.prev_rain == w.rain && after.prev_thunder == w.thunder && after.prev_puddle
                == w.puddle
            &&& after.raining == w.raining && after.thundering == w.thundering && after.force_snow
                == w.force_snow
            &&& w.raining && w.rain <= 990_000_000 ==> after.rain == w.rain + 10_000_000
            &&& w.raining && w.rain >= 990_000_000 ==> after.rain == 1_000_000_000
            &&& !w.raining && w.rain >= 10_000_000 ==> after.rain == w.rain - 10_000_000
            &&& !w.raining && w.rain <= 10_000_000 ==> after.rain == 0
            &&& w.thundering && w.thunder <= 990_000_000 ==> after.thunder == w.thunder
                + 10_000_000
            &&& !w.thundering && w.thunder >= 10_000_000 ==> after.thunder == w.thunder
                - 10_000_000
            &&& w.lightning_flash > 0 ==> after.lightning_flash == w.lightning_flash - 1
            &&& w.lightning_flash == 0 ==> after.lightning_flash == 0
        }),
{
}

/// Standing water grows by the rain of the tick while it rains, and drains otherwise, twice
/// as slowly as full rain fills it.
pub proof fn law_puddles_follow_the_rain(w: Weather)
    requires
        w.wf(),
    ensures
        w.raining && w.puddle + w.step().rain <= 400_000_000_000 ==> w.step().puddle == w.puddle
            + w.step().rain,
        w.raining ==> w.step().puddle >= w.puddle,
        !w.raining && w.puddle >= 500_000_000 ==> w.step().puddle == w.puddle - 500_000_000,
        !w.raining ==> w.step().puddle <= w.puddle,
{
}

/// Thunder brings rain and does not outlive it; snow brings rain, and ending it does not
/// end the rain.
pub proof fn law_thunder_and_snow_bring_rain(w: Weather, on: bool)
    ensures
        w.with_thunder(true).raining && w.with_thunder(true).thundering,
        !w.with_thunder(false).thundering,
        w.with_thunder(false).raining == w.raining,
        !w.with_rain(false).raining && !w.with_rain(false).thundering,
        w.with_rain(true).raining,
        w.with_rain(true).thundering == w.thundering,
        w.with_snow(true).raining && w.with_snow(true).force_snow,
        w.with_snow(false).raining == w.raining && !w.with_snow(false).force_snow,
        w.with_rain(on).rain == w.rain,
        w.with_thunder(on).thunder == w.thunder,
{
}

/// A bolt shows for its ticks: each tick takes one from every bolt, in order, and a bolt
/// with none left goes.
pub proof fn law_bolts_age_together(bolts: Seq<LightningBolt>, i: int)
    requires
        0 <= i < bolts.len(),
        forall|j: int| 0 <= j < bolts.len() ==> (#[trigger] bolts[j]).life > 1,
    ensures
        aged(bolts).len() == bolts.len(),
        aged(bolts)[i].life + 1 == bolts[i].life,
        aged(bolts)[i].x == bolts[i].x,
        aged(bolts)[i].y == bolts[i].y,
        aged(bolts)[i].z == bolts[i].z,
        aged(bolts)[i].seed == bolts[i].seed,
    decreases bolts.len(),
{
    let before = bolts.drop_last();
    assert forall|j: int| 0 <= j < before.len() implies (#[trigger] before[j]).life > 1 by {
        assert(before[j] == bolts[j]);
    }
    lemma_aged_len(before);
    if i < before.len() {
        law_bolts_age_together(before, i);
    }
}

proof fn lemma_aged_len(bolts: Seq<LightningBolt>)
    requires
        forall|j: int| 0 <= j < bolts.len() ==> (#[trigger] bolts[j]).life > 1,
    ensures
        aged(bolts).len() == bolts.len(),
    decreases bolts.len(),
{
    if bolts.len() > 0 {
        let before = bolts.drop_last();
        assert forall|j: int| 0 <= j < before.len() implies (#[trigger] before[j]).life > 1 by {
            assert(before[j] == bolts[j]);
        }
        lemma_aged_len(before);
    }
}

/// A bolt in its last tick goes with it.
pub proof fn law_faded_bolts_go(bolts: Seq<LightningBolt>, bolt: LightningBolt)
    requires
        bolt.life <= 1,
    ensures
        aged(bolts.push(bolt)) == aged(bolts),
{
    assert(bolts.push(bolt).drop_last() =~= bolts);
}

/// Rain lands on top of the highest block that stops it: nothing above does, and the one
/// below does.
pub proof fn law_rain_lands_on_the_highest_block(column: Seq<BlockState>, i: int)
    ensures
        0 <= spec_landing(column) <= column.len(),
        spec_landing(column) > 0 ==> column[spec_landing(column) - 1].spec_stops_rain(),
        spec_landing(column) <= i < column.len() ==> !column[i].spec_stops_rain(),
    decreases column.len(),
{
    if column.len() > 0 && !column.last().spec_stops_rain() {
        law_rain_lands_on_the_highest_block(column.drop_last(), i);
    }
}

/// Rain is drawn around the eye, as far as its radius up and down, but never below the
/// ground; as snow where it snows, or everywhere if so set.
pub proof fn law_curtains_hang_around_the_eye(
    x: int,
    z: int,
    cy: int,
    radius: int,
    f: Falling,
    force_snow: bool,
)
    requires
        0 < radius <= 1000,
        -1000000 <= cy <= 1000000,
        -1000000 <= f.ground <= 1000000,
        i32::MIN <= x <= i32::MAX,
        i32::MIN <= z <= i32::MAX,
    ensures
        f.ground >= cy + radius <==> curtain_at(x, z, cy, radius, Some(f), force_snow) is None,
        curtain_at(x, z, cy, radius, Some(f), force_snow) matches Some(c) ==> {
            &&& c.x == x && c.z == z
            &&& c.y_min >= f.ground && c.y_min >= cy - radius
            &&& c.y_min == f.ground || c.y_min == cy - radius
            &&& c.y_max == cy + radius
            &&& c.snow <==> f.snow || force_snow
        },
        curtain_at(x, z, cy, radius, None, force_snow) is None,
{
}

/// A hundred drops fall at full rain, a quarter of them at half, and never more with less
/// rain.
pub proof fn law_drops_grow_with_the_rain(a: int, b: int)
    requires
        0 <= a <= b <= 1_000_000_000,
    ensures
        spec_drops(0) == 0,
        spec_drops(500_000_000) == 25,
        spec_drops(1_000_000_000) == 100,
        0 <= spec_drops(a) <= spec_drops(b) <= 100,
{
    assert(0 <= 100 * a * a <= 100 * b * b && 100 * b * b <= 100_000_000_000_000_000_000)
        by (nonlinear_arith)
        requires
            0 <= a <= b <= 1_000_000_000,
    ;
    let full = 1_000_000_000_000_000_000int;
    vstd::arithmetic::div_mod::lemma_div_is_ordered(100 * a * a, 100 * b * b, full);
    vstd::arithmetic::div_mod::lemma_div_is_ordered(100 * b * b, 100 * full, full);
    vstd::arithmetic::div_mod::lemma_div_pos_is_pos(100 * a * a, full);
}

/// Drops fall within ten blocks either way.
pub proof fn law_drops_fall_close_by(h: u32)
    ensures
        -10 < spec_drop_offset(h).0 < 10,
        -10 < spec_drop_offset(h).1 < 10,
{
}

/// A drop splashes on what it lands on within ten blocks of the eye, up or down: smoke on
/// lava, a droplet elsewhere, and nothing in snow or on air.
pub proof fn law_drops_splash_where_they_land(
    top: int,
    ey: int,
    snows: Option<bool>,
    force_snow: bool,
    below: BlockState,
)
    ensures
        ({
            let splash = spec_splash(top, ey, snows, force_snow, below);
            let near = -10 <= top - ey <= 10;
            &&& splash != Splash::Nothing <==> near && !force_snow && snows == Some(false)
                && below.id != 0
            &&& splash == Splash::Smoke ==> below.id == 10 || below.id == 11
            &&& splash == Splash::Droplet ==> below.id != 10 && below.id != 11
        }),
{
}

// ── Music ─────────────────────────────────────────────────────────────────

/// The music fits the world: the menu's before a game, the nether's and the end's in their
/// dimensions, the dragon's while it is fought, and the creative one for creative players
/// who may fly.
pub proof fn law_music_fits_the_world(
    joined: bool,
    dimension: int,
    boss: bool,
    creative: bool,
    allow_flying: bool,
)
    ensures
        ({
            let music = spec_desired(joined, dimension, boss, creative, allow_flying);
            &&& music == MusicType::Menu <==> !joined
            &&& music == MusicType::Nether <==> joined && dimension == -1
            &&& music == MusicType::EndBoss <==> joined && dimension == 1 && boss
            &&& music == MusicType::End <==> joined && dimension == 1 && !boss
            &&& music == MusicType::Creative <==> joined && dimension != -1 && dimension != 1
                && creative && allow_flying
        }),
{
}

/// Between tracks the pause runs down by a tick; when it is over, the wanted track starts,
/// and is ordered once.
pub proof fn law_tracks_start_after_their_pause(m: MusicModel, wanted: MusicType)
    requires
        m.current is None,
    ensures
        m.delay > 1 ==> m.step(wanted).delay == m.delay - 1 && m.step(wanted).current is None
            && m.step(wanted).orders == m.orders && !(m.step(wanted).playing && !m.playing),
        m.delay <= 1 ==> m.step(wanted).current == Some(wanted) && m.step(wanted).playing
            && m.step(wanted).orders.len() == m.orders.len() + 1 && m.step(wanted).orders.last()
            == MusicOrder::Play(wanted.spec_event()),
{
}

/// A track of another group is stopped at once, with one order; one of the wanted group
/// plays on while it is heard.
pub proof fn law_tracks_stop_for_another_group(m: MusicModel, wanted: MusicType, current: MusicType)
    requires
        m.wf(),
        m.current == Some(current),
        m.playing,
    ensures
        current == wanted ==> m.step(wanted).current == Some(wanted) && m.step(wanted).playing
            && m.step(wanted).orders == m.orders && m.step(wanted).delay == m.delay,
        current != wanted ==> m.step(wanted).orders.len() > m.orders.len() && m.step(
            wanted,
        ).orders[m.orders.len() as int] == MusicOrder::Stop,
{
}

/// The pauses of the groups: one to thirty seconds in the menu, ten to twenty minutes in a
/// game, none for the dragon; and each group has its own track.
pub proof fn law_groups_have_their_pauses(a: MusicType, b: MusicType)
    ensures
        MusicType::Menu.spec_delay_range() == (20int, 600int),
        MusicType::Game.spec_delay_range() == (10 * 60 * 20int, 20 * 60 * 20int),
        MusicType::Creative.spec_delay_range() == MusicType::Game.spec_delay_range(),
        MusicType::Nether.spec_delay_range() == MusicType::Game.spec_delay_range(),
        MusicType::End.spec_delay_range() == MusicType::Game.spec_delay_range(),
        MusicType::EndBoss.spec_delay_range() == (0int, 0int),
        a.spec_event() == b.spec_event() <==> a == b,
{
    reveal_strlit("music.menu");
    reveal_strlit("music.game");
    reveal_strlit("music.game.creative");
    reveal_strlit("music.game.nether");
    reveal_strlit("music.game.end");
    reveal_strlit("music.game.end.dragon");
    assert("music.menu"@.len() == 10 && "music.menu"@[6] == 'm');
    assert("music.game"@.len() == 10 && "music.game"@[6] == 'g');
    assert("music.game.creative"@.len() == 19);
    assert("music.game.nether"@.len() == 17);
    assert("music.game.end"@.len() == 14);
    assert("music.game.end.dragon"@.len() == 21);
}

// ── Sounds ────────────────────────────────────────────────────────────────

/// The sound of digging, stepping and landing is that of what the block is made of, and
/// materials are told apart by name.
pub proof fn law_materials_are_told_apart(a: Material, b: Material)
    ensures
        a.spec_name() == b.spec_name() <==> a == b,
{
    reveal_strlit("wood");
    reveal_strlit("gravel");
    reveal_strlit("sand");
    reveal_strlit("grass");
    reveal_strlit("glass");
    reveal_strlit("cloth");
    reveal_strlit("stone");
    assert("wood"@.len() == 4 && "wood"@[0] == 'w' && "sand"@.len() == 4 && "sand"@[0] == 's');
    assert("gravel"@.len() == 6);
    assert("grass"@.len() == 5 && "grass"@[0] == 'g' && "grass"@[1] == 'r');
    assert("glass"@.len() == 5 && "glass"@[0] == 'g' && "glass"@[1] == 'l');
    assert("cloth"@.len() == 5 && "cloth"@[0] == 'c');
    assert("stone"@.len() == 5 && "stone"@[0] == 's');
}

/// Blocks sound of what they are made of: logs, planks and what is built of them of wood;
/// wool and carpets of cloth; earth, leaves and grass of grass; panes and lamps of glass.
pub proof fn law_blocks_sound_of_their_material(id: int)
    ensures
        id == 5 || id == 17 || id == 162 || id == 54 || id == 58 || id == 64 || id == 85 || id == 96
            || (183 <= id <= 187) ==> spec_material(id) == Material::Wood,
        id == 35 || id == 171 <==> spec_material(id) == Material::Cloth,
        id == 13 <==> spec_material(id) == Material::Gravel,
        id == 12 || id == 24 <==> spec_material(id) == Material::Sand,
        id == 2 || id == 3 || id == 18 || id == 31 || id == 60 || id == 110 || id == 161
            <==> spec_material(id) == Material::Grass,
        id == 20 || id == 79 || id == 89 || id == 95 || id == 102 <==> spec_material(id)
            == Material::Glass,
        id == 1 || id == 4 || id == 98 ==> spec_material(id) == Material::Stone,
{
}

/// A broken block sounds as it is dug, by the low byte of the effect's data.
pub proof fn law_broken_blocks_sound_as_dug(block: i32, data: i32)
    requires
        0 <= block < 256,
        data as int % 256 == block,
    ensures
        spec_effect_event(2001, data) == Some("dig."@ + spec_material(block as int).spec_name()),
{
}

/// A player who comes down is heard on the ground, harder the more it hurts; one who stays
/// up or down is not.
pub proof fn law_landings_are_heard(s: Steps, m: Move)
    ensures
        ({
            let sounds = landing_sounds(s, m);
            let landed = m.on_ground && !s.prev_on_ground;
            let ground = !m.in_water && m.below.id != 0;
            &&& !landed ==> sounds.len() == 0
            &&& landed && m.damage <= 0 && !ground ==> sounds.len() == 0
            &&& landed && m.damage > 4 ==> sounds.len() > 0 && sounds[0] == MoveSound::FallBig
            &&& landed && 0 < m.damage <= 4 ==> sounds.len() > 0 && sounds[0]
                == MoveSound::FallSmall
            &&& landed && ground ==> sounds.len() > 0 && sounds.last() == MoveSound::Landing(
                spec_material(m.below.id as int),
            )
        }),
{
}

/// A step that is due is heard: a stroke in water, a step on the ground of its material, and
/// nothing in the air or on water.
pub proof fn law_steps_are_heard(m: Move)
    ensures
        ({
            let sounds = step_sounds(m);
            let ground = m.on_ground && m.below.id != 0 && m.below.id != 8 && m.below.id != 9;
            &&& !m.step_due ==> sounds.len() == 0
            &&& m.step_due && m.in_water ==> sounds == seq![MoveSound::Swim]
            &&& m.step_due && !m.in_water && ground ==> sounds == seq![
                MoveSound::Step(spec_material(m.below.id as int)),
            ]
            &&& m.step_due && !m.in_water && !ground ==> sounds.len() == 0
        }),
{
}

/// A cave is listened for every tick once the wait is over, and only in a game; until then
/// the wait runs down.
pub proof fn law_caves_are_listened_for(mood: Mood, joined_game: bool)
    ensures
        !joined_game ==> mood.step(joined_game).0 == mood && mood.step(joined_game).1 is None,
        joined_game && mood.countdown > 0 ==> mood.step(joined_game).0.countdown == mood.countdown
            - 1 && mood.step(joined_game).0.lcg == mood.lcg && mood.step(joined_game).1 is None,
        joined_game && mood.countdown <= 0 ==> mood.step(joined_game).1 is Some && mood.step(
            joined_game,
        ).0.countdown == mood.countdown,
{
}

/// Only air that the sky does not reach is dark, and light of eight or more never is.
pub proof fn law_dark_places_are_dark(mood: Mood, air: bool, block_light: u8, sky_light: u8)
    ensures
        mood.dark(air, block_light, sky_light) ==> air && sky_light == 0 && block_light < 8,
        air && sky_light == 0 && block_light == 0 ==> mood.dark(air, block_light, sky_light),
{
}

/// Carts without a sound are those that have none yet, each where it stands among the
/// entities.
pub proof fn law_carts_get_one_sound(
    sounds: Seq<EntitySound>,
    entities: Seq<(i32, EntityKind)>,
    n: int,
    id: i32,
)
    requires
        0 <= n <= entities.len(),
    ensures
        silent_carts(sounds, entities, n).contains(id) <==> !sounding(sounds, id) && exists|i: int|
            0 <= i < n && #[trigger] entities[i] == (id, EntityKind::Object(10)),
    decreases n,
{
    if n > 0 {
        law_carts_get_one_sound(sounds, entities, n - 1, id);
        let rest = silent_carts(sounds, entities, n - 1);
        let (last, kind) = entities[n - 1];
        lemma_pushed_id(rest, last, id);
        if !sounding(sounds, id) && exists|i: int|
            0 <= i < n && #[trigger] entities[i] == (id, EntityKind::Object(10)) {
            let i = choose|i: int|
                0 <= i < n && #[trigger] entities[i] == (id, EntityKind::Object(10));
            if i < n - 1 {
                assert(entities[i] == (id, EntityKind::Object(10)));
            }
        }
    }
}

proof fn lemma_pushed_id(list: Seq<i32>, last: i32, id: i32)
    ensures
        list.push(last).contains(id) == (list.contains(id) || last == id),
{
    let all = list.push(last);
    assert(all[list.len() as int] == last);
    if list.contains(id) {
        let k = choose|k: int| 0 <= k < list.len() && list[k] == id;
        assert(all[k] == id);
    }
    if all.contains(id) {
        let k = choose|k: int| 0 <= k < all.len() && all[k] == id;
        if k < list.len() {
            assert(list[k] == id);
        }
    }
}

/// The sounds to stop are those whose entity is gone.
pub proof fn law_sounds_of_the_gone_are_stopped(
    sounds: Seq<EntitySound>,
    present: Seq<i32>,
    n: int,
    id: i32,
)
    requires
        0 <= n <= sounds.len(),
    ensures
        orphaned(sounds, present, n).contains(id) <==> !present.contains(id) && exists|i: int|
            0 <= i < n && (#[trigger] sounds[i]).entity == id,
    decreases n,
{
    if n > 0 {
        law_sounds_of_the_gone_are_stopped(sounds, present, n - 1, id);
        let rest = orphaned(sounds, present, n - 1);
        lemma_pushed_id(rest, sounds[n - 1].entity, id);
        if exists|i: int| 0 <= i < n && (#[trigger] sounds[i]).entity == id {
            let i = choose|i: int| 0 <= i < n && (#[trigger] sounds[i]).entity == id;
            if i < n - 1 {
                assert(sounds[i].entity == id);
            }
        }
    }
}

// ── Entities ──────────────────────────────────────────────────────────────

/// The player is moved by the player, what the server corrects goes where it says, dropped
/// items fall, and flying projectiles fly; everything else follows the server.
pub proof fn law_entities_move_as_they_should(
    kind: EntityKind,
    own: bool,
    corrected: bool,
    moving: bool,
)
    ensures
        ({
            let motion = spec_motion(kind, own, corrected, moving);
            &&& motion == EntityMotion::Own <==> own
            &&& motion == EntityMotion::Item <==> !own && !corrected && kind
                == EntityKind::Object(2)
            &&& motion is Flight ==> !own && !corrected && moving && (kind
                matches EntityKind::Object(k) && (60 <= k <= 62 || k == 65 || k == 73 || k == 75))
            &&& !own && corrected ==> motion == EntityMotion::Follow
            &&& !own && !(kind is Object) ==> motion == EntityMotion::Follow
        }),
{
}

/// Of projectiles only arrows stick; all keep ninety-nine hundredths of their speed, and
/// bottles of experience fall the fastest, then arrows, then what is thrown.
pub proof fn law_projectiles_fly_by_their_kind(kind: int)
    ensures
        spec_projectile_physics(kind) matches Some((gravity, drag, sticks)) ==> drag == 99 && (sticks
            <==> kind == 60) && (gravity == 7 <==> kind == 75) && (gravity == 5 <==> kind == 60) && (
        gravity == 3 <==> kind == 61 || kind == 62 || kind == 65 || kind == 73),
        spec_projectile_physics(kind) is Some <==> kind == 60 || kind == 61 || kind == 62 || kind
            == 65 || kind == 73 || kind == 75,
{
}

/// Hitting a player or an object slows a sprint, hitting a mob or a dropped item does not.
pub proof fn law_hits_slow_by_kind(kind: EntityKind)
    ensures
        kind is RemotePlayer ==> spec_slows(kind),
        kind is Mob || kind is LocalPlayer || kind is ExperienceOrb ==> !spec_slows(kind),
        kind matches EntityKind::Object(k) ==> (spec_slows(kind) <==> k != 2),
{
}

/// A falling block's number is in the low twelve bits of its data and its variant in the
/// four above.
pub proof fn law_falling_blocks_unpack(id: u16, meta: u8)
    requires
        id < 4096,
        meta < 16,
    ensures
        spec_packed_block((id + 4096 * meta) as i32).id == id,
        spec_packed_block((id + 4096 * meta) as i32).meta == meta,
{
    let data = (id + 4096 * meta) as i32;
    assert(id < 4096 && meta < 16 && data == id + 4096 * meta ==> (data & 0xfff) as u16 == id && ((
    data >> 12) & 0xf) as u8 == meta) by (bit_vector);
}

/// Whoever wears nothing known wears nothing in any of the five places.
pub proof fn law_the_unknown_wear_nothing(
    equipment: Map<i32, Vec<Option<SlotItem>>>,
    entity: i32,
    i: int,
)
    requires
        !equipment.dom().contains(entity),
        0 <= i < 5,
    ensures
        worn(equipment, entity).len() == 5,
        worn(equipment, entity)[i] is None,
{
}

// ── What extensions have the player do ────────────────────────────────────

/// The screen is tinted by the liquid that the eye is in, else by fire, else not at all.
pub proof fn law_the_eye_tints_the_screen(block: BlockState, on_fire: bool)
    ensures
        overlay_of(block, on_fire) == ScreenOverlay::Water <==> block.id == 8 || block.id == 9,
        overlay_of(block, on_fire) == ScreenOverlay::Lava <==> block.id == 10 || block.id == 11,
        overlay_of(block, on_fire) == ScreenOverlay::Fire <==> on_fire && !(8 <= block.id <= 11),
{
}

/// An extension's touch of an entity is an interaction with that entity, the last packet
/// sent, with the point before it where one is given; nothing is ever struck.
pub proof fn law_extensions_touch_entities(
    hands: HandsModel,
    id: i32,
    at: Option<(Real32, Real32, Real32)>,
    i: int,
)
    ensures
        ({
            let sent = interacted(fresh(hands), id, at).sent;
            &&& sent.len() > 0
            &&& (sent.last() matches ServerboundPacket::UseEntity { target, kind } && target == id
                && kind == UseEntityKind::Interact)
            &&& (at matches Some((px, py, pz)) ==> sent.len() > 1 && (sent[sent.len() - 2]
                matches ServerboundPacket::UseEntity { target, kind } && target == id && (kind
                matches UseEntityKind::InteractAt { x, y, z } && x == px && y == py && z == pz)))
            &&& (0 <= i < sent.len() ==> (sent[i] matches ServerboundPacket::UseEntity {
                target,
                kind,
            } ==> target == id && kind != UseEntityKind::Attack))
        }),
{
}

/// A slot past either end is the slot there; the others are taken as they are.
pub proof fn law_slots_are_kept_in_the_hotbar(slot: i32)
    ensures
        0 <= nearest_slot(slot) < 9,
        0 <= slot < 9 ==> nearest_slot(slot) == slot,
        slot < 0 ==> nearest_slot(slot) == 0,
        slot >= 9 ==> nearest_slot(slot) == 8,
{
}

} // verus!
