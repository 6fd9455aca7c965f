//! What the player's deeds, the weather around the player and the start of a game come to.

use vstd::prelude::*;
use crate::chat::lang::Language;
use crate::clientbound::AttributeModifier;
use crate::item::ItemModel;
use crate::packets::{ServerboundPacket, UseEntityKind};
use super::actions::{built, fresh, slot_chosen, struck};
use super::aim::{entity_hit, nearest_hit, EntityHit};
use super::commands::Clock;
use super::dispatch::{counted, excluded_modifier, steps_of, AttributeKind, EntityKind};
use super::drawing::{has_bar, is_boss_bar, nearest_boss, spec_listed_name, BossBar, BossSight};
use super::entities::attacker_slowed;
use super::motion::Motion;
use super::noise::spec_hash2d;
use super::player::{HandsModel, Outbox, Scene, TickActions, Turn};
use super::rules::orb_place;
use super::sounds::{sounding, spec_dig_sound, spec_step_sound, EntitySounds, Move, Steps};
use super::interface::TitleOverlay;
use super::residency::comes_first;
use super::sections::ChunkPos;
use super::state::{GameState, Session};
use super::windows::Windows;
use super::vitals::Vitals;
use super::weather::{
    curtain, drop_count, fallen, hearing, rain_sounds, Falling, LightningBolt, Splash, Weather,
};
use super::worldgen::DemoKind;

verus! {

// ── Deeds ─────────────────────────────────────────────────────────────────

/// Who strikes an entity swings first; the selected slot is told before the blow, and the
/// blow is the last thing told. Only a sprint that the blow slows is lost.
pub proof fn law_a_blow_follows_its_swing(hands: HandsModel, id: i32, slows: bool)
    ensures
        ({
            let after = struck(fresh(hands), id, slows);
            let blow = ServerboundPacket::UseEntity { target: id, kind: UseEntityKind::Attack };
            &&& after.sent.len() >= 2
            &&& after.sent.first() == ServerboundPacket::SwingArm
            &&& after.sent.last() == blow
            &&& after.sent.len() == if hands.selected_slot == hands.current_player_item {
                2int
            } else {
                3
            }
            &&& hands.selected_slot != hands.current_player_item ==> after.sent[1]
                == ServerboundPacket::HeldItemChange { slot: hands.selected_slot as i16 }
            &&& after.hands.sprinting == (hands.sprinting && !slows)
            &&& after.hands.selected_slot == hands.selected_slot
        }),
{
}

/// Who builds swings last, after all that the click itself tells.
pub proof fn law_building_ends_with_a_swing(
    t: Turn,
    x: i32,
    y: i32,
    z: i32,
    face: u8,
    cursor: (u8, u8, u8),
    held: Option<ItemModel>,
    scene: Scene,
)
    ensures
        ({
            let clicked = t.right_click_block(
                x,
                y,
                z,
                face,
                cursor.0,
                cursor.1,
                cursor.2,
                held,
                scene,
            ).0;
            let after = built(t, x, y, z, face, cursor, held, scene);
            &&& after.sent.last() == ServerboundPacket::SwingArm
            &&& after.sent.drop_last() =~= clicked.sent
            &&& after.effects == clicked.effects
            &&& after.hands.selected_slot == clicked.hands.selected_slot
        }),
{
}

/// The slot that is chosen is the one that is told, and the server need not be told again;
/// it is always one of the hotbar's, and the one asked for where that is one.
pub proof fn law_the_chosen_slot_is_told(hands: HandsModel, slot: i32)
    ensures
        ({
            let (after, packet) = slot_chosen(hands, slot);
            &&& packet == ServerboundPacket::HeldItemChange { slot: after.selected_slot as i16 }
            &&& after.current_player_item == after.selected_slot
            &&& 0 <= after.selected_slot <= 8
            &&& 0 <= slot <= 8 ==> after.selected_slot == slot
            &&& slot < 0 ==> after.selected_slot == 0
            &&& slot > 8 ==> after.selected_slot == 8
            &&& after.sprinting == hands.sprinting && after.creative == hands.creative
        }),
{
}

/// The third effect hastens digging and the fourth tires; no other effect changes it.
pub proof fn law_haste_and_fatigue_change_digging(v: Vitals, w: Vitals, on_ground: bool)
    requires
        v@.amplifier(3) == w@.amplifier(3),
        v@.amplifier(4) == w@.amplifier(4),
    ensures
        v.digging(on_ground) == w.digging(on_ground),
        v.digging(on_ground).haste == v@.amplifier(3),
        v.digging(on_ground).fatigue == v@.amplifier(4),
        v.digging(on_ground).on_ground == on_ground,
{
}

/// Players and all objects but dropped items slow who hits them; mobs and what is not
/// there do not.
pub proof fn law_players_and_objects_slow_attackers(object: u8, mob: u8)
    ensures
        attacker_slowed(Some(EntityKind::RemotePlayer)),
        attacker_slowed(Some(EntityKind::Object(object))) <==> object != 2,
        !attacker_slowed(Some(EntityKind::Mob(mob))),
        !attacker_slowed(None),
{
}

proof fn lemma_nearest_hit_is_there(hits: Seq<EntityHit>, player_id: i32, n: int)
    requires
        0 <= n <= hits.len(),
    ensures
        nearest_hit(hits, player_id, n) matches Some(i) ==> 0 <= i < n && hits[i].id != player_id,
        nearest_hit(hits, player_id, n) is None ==> forall|j: int|
            0 <= j < n ==> (#[trigger] hits[j]).id == player_id,
    decreases n,
{
    if n > 0 {
        lemma_nearest_hit_is_there(hits, player_id, n - 1);
    }
}

/// A ray hits one of the entities that it meets, and never the player; it misses only where
/// it meets no other.
pub proof fn law_rays_hit_others(hits: Seq<EntityHit>, player_id: i32)
    ensures
        entity_hit(hits, player_id) matches Some(h) ==> hits.contains(h) && h.id != player_id,
        entity_hit(hits, player_id) is None ==> forall|j: int|
            0 <= j < hits.len() ==> (#[trigger] hits[j]).id == player_id,
{
    lemma_nearest_hit_is_there(hits, player_id, hits.len() as int);
}

// ── Attributes ────────────────────────────────────────────────────────────

proof fn lemma_counted_are_of_one_operation(
    kind: AttributeKind,
    modifiers: Seq<AttributeModifier>,
    operation: i8,
    n: int,
)
    requires
        0 <= n <= modifiers.len(),
    ensures
        forall|i: int|
            0 <= i < counted(kind, modifiers, operation, n).len() ==> {
                let m = #[trigger] counted(kind, modifiers, operation, n)[i];
                m.operation == operation && m.uuid@ != excluded_modifier(kind)
            },
    decreases n,
{
    if n > 0 {
        lemma_counted_are_of_one_operation(kind, modifiers, operation, n - 1);
        let rest = counted(kind, modifiers, operation, n - 1);
        let all = counted(kind, modifiers, operation, n);
        assert forall|i: int| 0 <= i < all.len() implies {
            let m = #[trigger] all[i];
            m.operation == operation && m.uuid@ != excluded_modifier(kind)
        } by {
            if i < rest.len() {
                assert(all[i] == rest[i]);
            } else {
                assert(all[i] == modifiers[n - 1]);
            }
        }
    }
}

proof fn lemma_counted_holds(
    kind: AttributeKind,
    modifiers: Seq<AttributeModifier>,
    operation: i8,
    n: int,
    k: int,
)
    requires
        0 <= k < n <= modifiers.len(),
        modifiers[k].operation == operation,
        modifiers[k].uuid@ != excluded_modifier(kind),
    ensures
        counted(kind, modifiers, operation, n).contains(modifiers[k]),
    decreases n,
{
    let rest = counted(kind, modifiers, operation, n - 1);
    let all = counted(kind, modifiers, operation, n);
    if k == n - 1 {
        assert(all.last() == modifiers[k]);
    } else {
        lemma_counted_holds(kind, modifiers, operation, n - 1, k);
        let i = choose|i: int| 0 <= i < rest.len() && rest[i] == modifiers[k];
        assert(all[i] == modifiers[k]);
    }
}

/// What adds to an attribute is applied before what adds a share of it, and that before
/// what scales it.
pub proof fn law_modifiers_apply_in_the_order_of_their_operations(
    kind: AttributeKind,
    modifiers: Seq<AttributeModifier>,
    i: int,
    j: int,
)
    requires
        0 <= i < j < steps_of(kind, modifiers).len(),
    ensures
        0 <= steps_of(kind, modifiers)[i].operation <= steps_of(kind, modifiers)[j].operation <= 2,
{
    let n = modifiers.len() as int;
    let a = counted(kind, modifiers, 0, n);
    let b = counted(kind, modifiers, 1, n);
    let c = counted(kind, modifiers, 2, n);
    lemma_counted_are_of_one_operation(kind, modifiers, 0, n);
    lemma_counted_are_of_one_operation(kind, modifiers, 1, n);
    lemma_counted_are_of_one_operation(kind, modifiers, 2, n);
    let all = steps_of(kind, modifiers);
    assert(forall|k: int|
        0 <= k < all.len() ==> #[trigger] all[k] == if k < a.len() {
            a[k]
        } else if k < a.len() + b.len() {
            b[k - a.len()]
        } else {
            c[k - a.len() - b.len()]
        });
    assert(all[i] == all[i] && all[j] == all[j]);
}

/// Every modifier of the three operations is applied, but the one that the client applies
/// by itself.
pub proof fn law_every_other_modifier_applies(
    kind: AttributeKind,
    modifiers: Seq<AttributeModifier>,
    k: int,
)
    requires
        0 <= k < modifiers.len(),
        0 <= modifiers[k].operation <= 2,
        modifiers[k].uuid@ != excluded_modifier(kind),
    ensures
        steps_of(kind, modifiers).contains(modifiers[k]),
{
    let n = modifiers.len() as int;
    let a = counted(kind, modifiers, 0, n);
    let b = counted(kind, modifiers, 1, n);
    let c = counted(kind, modifiers, 2, n);
    let all = steps_of(kind, modifiers);
    let m = modifiers[k];
    lemma_counted_holds(kind, modifiers, m.operation, n, k);
    if m.operation == 0 {
        let i = choose|i: int| 0 <= i < a.len() && a[i] == m;
        assert(all[i] == m);
    } else if m.operation == 1 {
        let i = choose|i: int| 0 <= i < b.len() && b[i] == m;
        assert(all[a.len() + i] == m);
    } else {
        let i = choose|i: int| 0 <= i < c.len() && c[i] == m;
        assert(all[a.len() + b.len() + i] == m);
    }
}

// ── What is shown ─────────────────────────────────────────────────────────

proof fn lemma_nearest_boss_is_there(sights: Seq<BossSight>, n: int)
    requires
        0 <= n <= sights.len(),
    ensures
        nearest_boss(sights, n) matches Some(i) ==> 0 <= i < n && has_bar(sights[i]),
        nearest_boss(sights, n) is None ==> forall|j: int|
            0 <= j < n ==> !has_bar(#[trigger] sights[j]),
    decreases n,
{
    if n > 0 {
        lemma_nearest_boss_is_there(sights, n - 1);
    }
}

/// A boss bar is that of a living boss in sight: its health, and its own name where it has
/// one. There is none only where no such boss is.
pub proof fn law_the_boss_bar_is_a_boss_in_sight(sights: Seq<BossSight>, bar: Option<BossBar>)
    requires
        is_boss_bar(sights, bar),
    ensures
        bar is None ==> forall|j: int| 0 <= j < sights.len() ==> !has_bar(#[trigger] sights[j]),
        bar matches Some(b) ==> exists|i: int|
            0 <= i < sights.len() && has_bar(#[trigger] sights[i]) && sights[i].health == Some(
                b.health,
            ) && (sights[i].custom_name matches Some(own) ==> b.name@ == own@) && (sights[i].kind
                == EntityKind::Mob(64) ==> b.full == 300) && (sights[i].kind == EntityKind::Mob(63)
                ==> b.full == 200),
{
    lemma_nearest_boss_is_there(sights, sights.len() as int);
    if let Some(i) = nearest_boss(sights, sights.len() as int) {
        assert(has_bar(sights[i]));
    }
}

/// A name given for show hides the account's; without one the account's stands.
pub proof fn law_names_for_show_hide_the_account(
    shown: String,
    one: Seq<char>,
    other: Seq<char>,
    lang: Language,
)
    ensures
        spec_listed_name(Some(shown), one, lang) == spec_listed_name(Some(shown), other, lang),
        spec_listed_name(None, one, lang) == one,
{
}

/// Orbs stand four to a row, each in a place of its own.
pub proof fn law_orbs_stand_four_to_a_row(cell: u32)
    ensures
        orb_place(cell).0 < 4,
        orb_place(cell).0 + 4 * orb_place(cell).1 == cell,
{
}

// ── Sounds ────────────────────────────────────────────────────────────────

/// A block's steps and its digging sound of the same material.
pub proof fn law_steps_sound_of_what_is_dug(id: int)
    ensures
        spec_step_sound(id).skip(5) =~= spec_dig_sound(id).skip(4),
        spec_step_sound(id).take(5) == seq!['s', 't', 'e', 'p', '.'],
        spec_dig_sound(id).take(4) == seq!['d', 'i', 'g', '.'],
{
    reveal_strlit("step.");
    reveal_strlit("dig.");
    assert(spec_step_sound(id).take(5) =~= seq!['s', 't', 'e', 'p', '.']);
    assert(spec_dig_sound(id).take(4) =~= seq!['d', 'i', 'g', '.']);
}

/// A step that is taken puts the next one a block further, and only such a step does; the
/// ground that was felt is remembered.
pub proof fn law_steps_are_a_block_apart(s: Steps, m: Move)
    requires
        s.next_step_distance < i32::MAX,
    ensures
        m.step_due ==> s.moved(m).next_step_distance == s.next_step_distance + 1,
        !m.step_due ==> s.moved(m).next_step_distance == s.next_step_distance,
        s.moved(m).prev_on_ground == m.on_ground,
{
}

/// An entity that is given a sound has one, under a number that no sound had; what else
/// sounds goes on, and an entity never has two.
pub proof fn law_entities_have_one_sound(
    before: EntitySounds,
    entity: i32,
    after: EntitySounds,
    id: Option<u64>,
)
    requires
        before.wf(),
        before.attached(entity, after, id),
    ensures
        sounding(after.sounds@, entity),
        id is Some <==> !sounding(before.sounds@, entity),
        after.sounds@.len() == before.sounds@.len() + if id is Some {
            1int
        } else {
            0
        },
        id matches Some(n) ==> after.sounds@.last().sound_id == n && after.sounds@.last().entity
            == entity && forall|i: int|
            0 <= i < before.sounds@.len() ==> (#[trigger] before.sounds@[i]).sound_id != n,
        forall|i: int|
            0 <= i < before.sounds@.len() ==> #[trigger] after.sounds@[i] == before.sounds@[i],
{
    if !sounding(before.sounds@, entity) {
        assert(after.sounds@[before.sounds@.len() as int].entity == entity);
    }
}

// ── Weather ───────────────────────────────────────────────────────────────

/// Steady thunder is as strong as it is under full rain, half as strong under half of it,
/// and silent without any.
pub proof fn law_thunder_needs_rain(w: Weather, alpha: int)
    requires
        w.wf(),
        w.prev_thunder == w.thunder,
        w.prev_rain == w.rain,
    ensures
        w.storm(alpha) == w.thunder * w.rain * 1_000_000_000_000_000_000,
        w.rain == 0 || w.thunder == 0 ==> w.storm(alpha) == 0,
{
    let t = w.thunder as int;
    let r = w.rain as int;
    assert((t * 1_000_000_000 + (t - t) * alpha) * (r * 1_000_000_000 + (r - r) * alpha) == t * r
        * 1_000_000_000_000_000_000) by (nonlinear_arith);
    assert(r == 0 || t == 0 ==> t * r * 1_000_000_000_000_000_000 == 0) by (nonlinear_arith);
}

/// The thunder is that of the tick before at the start of a tick, and the new one at its end;
/// so is the standing water.
pub proof fn law_weather_passes_from_tick_to_tick(w: Weather)
    ensures
        w.storm(0) == w.prev_thunder * w.prev_rain * 1_000_000_000_000_000_000,
        w.storm(1_000_000_000) == w.thunder * w.rain * 1_000_000_000_000_000_000,
        w.standing_water(0) == w.prev_puddle * 1_000_000_000,
        w.standing_water(1_000_000_000) == w.puddle * 1_000_000_000,
{
    let (a, b) = (w.prev_thunder as int, w.thunder as int);
    let (c, d) = (w.prev_rain as int, w.rain as int);
    assert((a * 1_000_000_000 + (b - a) * 0) * (c * 1_000_000_000 + (d - c) * 0) == a * c
        * 1_000_000_000_000_000_000) by (nonlinear_arith);
    assert((a * 1_000_000_000 + (b - a) * 1_000_000_000) * (c * 1_000_000_000 + (d - c)
        * 1_000_000_000) == b * d * 1_000_000_000_000_000_000) by (nonlinear_arith);
}

/// The sky is lit while a flash has ticks left.
pub proof fn law_flashes_last_their_ticks(w: Weather)
    ensures
        w.flashing() <==> w.lightning_flash != 0,
{
}

/// Of two bolts the one that has longer to live shines more; one that has as much left as
/// bolts ever have shines in full.
pub proof fn law_bolts_fade(a: LightningBolt, b: LightningBolt)
    requires
        a.life <= b.life,
    ensures
        a.shine().0 <= b.shine().0,
        a.shine().1 == b.shine().1,
        a.shine().0 == a.life,
        a.life == 4 ==> a.shine().0 == a.shine().1,
{
}

/// Nothing falls without a sky or without rain in either tick; in steady rain what falls is
/// the curtain around the camera.
pub proof fn law_rain_falls_from_the_sky(
    w: Weather,
    alpha: int,
    cx: int,
    cy: int,
    cz: int,
    radius: int,
    cells: Seq<Option<Falling>>,
)
    ensures
        fallen(w, alpha, false, cx, cy, cz, radius, cells).len() == 0,
        w.prev_rain == 0 && w.rain == 0 ==> fallen(
            w,
            alpha,
            true,
            cx,
            cy,
            cz,
            radius,
            cells,
        ).len() == 0,
        w.prev_rain == w.rain && w.rain > 0 ==> fallen(w, alpha, true, cx, cy, cz, radius, cells)
            == curtain(cx, cy, cz, radius, cells, w.force_snow, cells.len() as int),
{
    let r = w.rain as int;
    assert(r * 1_000_000_000 + (r - r) * alpha == r * 1_000_000_000) by (nonlinear_arith);
    assert(0 * 1_000_000_000 + (0int - 0) * alpha == 0) by (nonlinear_arith);
}

/// A hundred drops fall in full rain, a quarter of them in half of it, none without rain or
/// without a sky.
pub proof fn law_drops_grow_with_the_rain(w: Weather, v: Weather)
    requires
        w.wf(),
        v.wf(),
    ensures
        drop_count(w, false) == 0,
        w.rain == 0 ==> drop_count(w, true) == 0,
        w.rain == 500_000_000 ==> drop_count(w, true) == 25,
        w.rain == 1_000_000_000 ==> drop_count(w, true) == 100,
        w.rain <= v.rain ==> drop_count(w, true) <= drop_count(v, true),
{
    let a = w.rain as int;
    let b = v.rain as int;
    assert(a == 0 ==> 100 * a * a == 0) by (nonlinear_arith);
    assert(a == 500_000_000 ==> 100 * a * a == 25 * 1_000_000_000_000_000_000)
        by (nonlinear_arith);
    assert(a == 1_000_000_000 ==> 100 * a * a == 100 * 1_000_000_000_000_000_000)
        by (nonlinear_arith);
    assert(drop_count(w, true) == 100 * a * a / 1_000_000_000_000_000_000);
    assert(drop_count(v, true) == 100 * b * b / 1_000_000_000_000_000_000);
    if a <= b {
        assert(100 * a * a <= 100 * b * b) by (nonlinear_arith)
            requires
                0 <= a <= b,
        ;
        vstd::arithmetic::div_mod::lemma_div_is_ordered(
            100 * a * a,
            100 * b * b,
            1_000_000_000_000_000_000,
        );
    }
}

/// Rain that does not land is not heard and counts for nothing. Rain that lands is heard by
/// the third tick at the latest; heard, it counts from nothing again, and unheard one tick
/// more.
pub proof fn law_rain_is_heard_in_time(landed: i32, counter: i32, silent: u32)
    requires
        silent < u32::MAX,
    ensures
        landed <= 0 ==> hearing(landed, counter, silent) == (false, silent),
        landed > 0 && silent >= 2 ==> hearing(landed, counter, silent).0,
        landed > 0 && hearing(landed, counter, silent).0 ==> hearing(landed, counter, silent).1
            == 0,
        landed > 0 && !hearing(landed, counter, silent).0 ==> hearing(landed, counter, silent).1
            == silent + 1,
        landed > 0 && hearing(landed, counter, silent).0 ==> forall|more: u32|
            silent <= more < u32::MAX ==> (#[trigger] hearing(landed, counter, more)).0,
{
    let h = spec_hash2d(landed, counter, 0x9e3d);
    assert(h % 3 <= 2);
}

/// The rain is heard at the last drop that landed, and nowhere without one.
pub proof fn law_rain_is_heard_at_the_last_drop(
    splashes: Seq<(usize, Splash)>,
    counter: i32,
    silent: u32,
)
    requires
        splashes.len() <= i32::MAX,
        silent < u32::MAX,
    ensures
        splashes.len() == 0 ==> rain_sounds(splashes, counter, silent) == (None::<usize>, silent),
        splashes.len() > 0 && silent >= 2 ==> rain_sounds(splashes, counter, silent) == (
            Some(splashes[splashes.len() - 1].0),
            0u32,
        ),
        rain_sounds(splashes, counter, silent).0 matches Some(at) ==> splashes.len() > 0 && at
            == splashes[splashes.len() - 1].0,
{
    law_rain_is_heard_in_time(splashes.len() as i32, counter, silent);
}

// ── The session ───────────────────────────────────────────────────────────

/// What the server is owed is told once, and is what the player can do.
pub proof fn law_abilities_are_told_once(m: Motion)
    ensures
        m.told().owed() is None,
        m.told().told() == m.told(),
        m.owed() is Some <==> m.abilities_dirty,
        m.abilities_dirty ==> (m.owed() matches Some(ServerboundPacket::PlayerAbilities {
            invulnerable,
            flying,
            allow_flying,
            creative,
            fly_speed,
            walk_speed,
        }) && flying == m.capabilities.flying && allow_flying == m.capabilities.allow_flying
            && creative == m.capabilities.creative && invulnerable == m.capabilities.invulnerable
            && fly_speed == m.capabilities.fly_speed && walk_speed == m.capabilities.walk_speed),
        m.told().capabilities == m.capabilities,
{
}

/// A corrected position is confirmed once.
pub proof fn law_positions_are_confirmed_once(s: Session)
    ensures
        !s.confirmed().confirms(),
        s.confirms() ==> s.joined_game && s.position_synced,
        s.confirmed().joined_game == s.joined_game,
        s.confirmed().position_synced == s.position_synced,
{
}

/// Input is acted on once: it is handed out as it was given, and none is left of it. Only
/// the hands change.
pub proof fn law_input_is_acted_on_once(
    before: GameState,
    sent: Outbox,
    after: GameState,
    out: Outbox,
    begun: (TickActions, bool),
)
    requires
        before.actions_begun(sent, after, out, begun),
    ensures
        begun.0 == before.pending_actions,
        !after.pending_actions.attack_pressed && !after.pending_actions.use_pressed,
        !after.pending_actions.left_held && !after.pending_actions.right_held,
        after.pending_actions.slot_select is None && after.pending_actions.slot_scroll == 0,
        after.windows == before.windows && after.vitals == before.vitals,
        after.motion == before.motion && after.session == before.session,
{
}

/// Who plays in a world of their own is creative and may fly, but stands; time runs as
/// ever, and the world is that of the seed.
pub proof fn law_worlds_of_ones_own_are_creative(g: GameState, seed: i64)
    requires
        g.local_start(seed),
    ensures
        g.hands.creative,
        g.motion.capabilities.creative && g.motion.capabilities.allow_flying,
        !g.motion.capabilities.flying,
        g.local_worldgen matches Some(w) && w.seed == seed,
        g.clock == Clock::initial(),
{
}

/// Who plays in a demo may fly, and flies at once where there is no ground nearby; time
/// runs twelvefold, and nothing is generated.
pub proof fn law_demos_run_fast(g: GameState, kind: DemoKind)
    requires
        g.demo_start(kind),
    ensures
        g.motion.capabilities.allow_flying && !g.motion.capabilities.creative,
        g.motion.capabilities.flying <==> kind is Terrain || kind is SingleCube,
        g.clock.time_rate == 12,
        g.clock.world_time == Clock::initial().world_time,
        !g.hands.creative,
        g.local_worldgen is None,
{
}

// ── Windows and titles ────────────────────────────────────────────────────

/// That a window was opened or closed is learnt once; learning of one says nothing of the
/// other.
pub proof fn law_windows_are_announced_once(w: Windows)
    ensures
        !w.opening_taken().window_open_pending,
        w.opening_taken().window_close_pending == w.window_close_pending,
        w.opening_taken().open_container == w.open_container,
        !w.closing_taken().window_close_pending,
        w.closing_taken().window_open_pending == w.window_open_pending,
        w.closing_taken().open_container == w.open_container,
{
}

/// A title is drawn with its own lines, each in its place, and never once its time is over.
pub proof fn law_titles_are_drawn_while_they_last(
    g: GameState,
    partial: int,
    overlay: Option<TitleOverlay<'_>>,
)
    requires
        g.title_drawn(partial, overlay),
    ensures
        overlay matches Some(o) ==> o.title@ == g.title.title@ && o.subtitle@ == g.title.subtitle@,
        overlay matches Some(o) ==> o.alpha.0 * 255 > 8 * o.alpha.1,
        g.title.fade_in == 0 && g.title.timer > g.title.fade_out ==> (overlay matches Some(o)
            ==> o.alpha == (1i128, 1i128)),
        g.title.timer <= 0 ==> overlay is None,
        g.title.title@.len() == 0 && g.title.subtitle@.len() == 0 ==> overlay is None,
{
}

// ── Columns ───────────────────────────────────────────────────────────────

/// Nearer columns are generated first; of equally near ones that of the lower row, and in
/// one row that of the lower place. Of any two one comes first, and only a column itself
/// comes both before and after it.
pub proof fn law_columns_are_generated_in_order(a: ChunkPos, b: ChunkPos, px: int, pz: int)
    ensures
        comes_first(a, b, px, pz) || comes_first(b, a, px, pz),
        comes_first(a, b, px, pz) && comes_first(b, a, px, pz) ==> a == b,
        a.z < b.z && a.z + b.z == 2 * pz && a.x == b.x ==> comes_first(a, b, px, pz) && !comes_first(
            b,
            a,
            px,
            pz,
        ),
        a.z == b.z && a.x < b.x && a.x + b.x == 2 * px ==> comes_first(a, b, px, pz)
            && !comes_first(b, a, px, pz),
        a.x < px && b.x == px && b.z < pz && a.z == pz && px - a.x == pz - b.z ==> comes_first(
            b,
            a,
            px,
            pz,
        ) && !comes_first(a, b, px, pz),
{
    let (ax, az, bx, bz) = (a.x as int, a.z as int, b.x as int, b.z as int);
    if az + bz == 2 * pz {
        assert((az - pz) * (az - pz) == (bz - pz) * (bz - pz)) by (nonlinear_arith)
            requires
                az + bz == 2 * pz,
        ;
    }
    if ax + bx == 2 * px {
        assert((ax - px) * (ax - px) == (bx - px) * (bx - px)) by (nonlinear_arith)
            requires
                ax + bx == 2 * px,
        ;
    }
    if px - ax == pz - bz {
        assert((ax - px) * (ax - px) == (bz - pz) * (bz - pz)) by (nonlinear_arith)
            requires
                px - ax == pz - bz,
        ;
    }
}

} // verus!
