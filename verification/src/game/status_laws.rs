//! What the server's packets about the player are for: joining, health, effects, windows,
//! chat, time and weather.

use vstd::prelude::*;
use crate::chat::component::{flat_message, message_segments, segments_text};
use crate::chat::state::backlog_view;
use crate::clientbound::ClientboundPlayPacket;
use crate::container::state::{Slot, WindowState};
use crate::container::trades::{recipes_view, trade_list_at};
use crate::container::updates::{as_short, items_written};
use crate::item::{inventory_view, stack_view, ItemModel, SlotItem};
use crate::packets::{Real32, Real64};
use super::dispatch::Order;
use super::fixtures::{sign_text, BlockPos};
use super::packet_laws::Arrival;
use super::title::TitleAction;
use super::vitals::{HudVitals, Vitals};

verus! {

// ── Joining and dying ─────────────────────────────────────────────────────

/// Whoever joins has the number and dimension told, builds in creative mode alone (the low
/// three bits of the mode are one), has a sky only in the overworld, and hears music after
/// a hundred ticks.
pub proof fn law_joining_tells_who_and_where(
    a: Arrival,
    entity_id: i32,
    game_mode: u8,
    dimension: i8,
)
    requires
        a.of(ClientboundPlayPacket::JoinGame { entity_id, game_mode, dimension }),
    ensures
        a.after.session.player_id == entity_id,
        a.after.session.dimension == dimension,
        a.after.session.joined_game,
        a.after.session.has_sky_light <==> dimension == 0,
        a.after.session.on_fire == a.before.session.on_fire,
        a.after.session.position_synced == a.before.session.position_synced,
        a.after.session.pending_confirm == a.before.session.pending_confirm,
        a.after.hands@.creative <==> game_mode % 8 == 1,
        a.after.hands@.selected_slot == a.before.hands@.selected_slot,
        a.after.music@.delay == 100,
        a.after.vitals == a.before.vitals,
        a.after.windows == a.before.windows,
        a.after.motion == a.before.motion,
        a.after.terrain == a.before.terrain,
        a.after.chat == a.before.chat,
        a.orders.len() == 2,
        a.orders[0] matches Order::SkyLight { on } && on == (dimension == 0),
        a.orders[1] is ShowPlayer,
{
    assert((game_mode & 0x7 == 1) == (game_mode % 8 == 1)) by (bit_vector);
}

/// A respawned player is alive and unharmed, without effects, waits for the server to say
/// where, and stands still; health and level reports count on.
pub proof fn law_respawning_starts_over(a: Arrival, dimension: i32, game_mode: u8)
    requires
        a.of(ClientboundPlayPacket::Respawn { dimension, game_mode }),
        -128 <= dimension <= 127,
    ensures
        a.after.session.dimension == dimension,
        a.after.session.has_sky_light <==> dimension == 0,
        !a.after.session.position_synced,
        !a.after.session.pending_confirm,
        a.after.session.player_id == a.before.session.player_id,
        a.after.session.joined_game == a.before.session.joined_game,
        a.after.hands@.creative <==> game_mode % 8 == 1,
        !a.after.vitals.is_dead,
        !a.after.vitals.needs_respawn,
        a.after.vitals.health.spec_ceil() == 20,
        a.after.vitals.max_health == a.after.vitals.health,
        forall|effect: u8| !(#[trigger] a.after.vitals.effects@.dom().contains(effect)),
        a.after.vitals.food == a.before.vitals.food,
        a.after.vitals.xp_level == a.before.vitals.xp_level,
        a.after.vitals.xp_bar == a.before.vitals.xp_bar,
        a.after.vitals.health_received == a.before.vitals.health_received,
        a.after.windows == a.before.windows,
        a.after.motion == a.before.motion,
        a.orders.len() == 2,
        a.orders[0] matches Order::SkyLight { on } && on == (dimension == 0),
        a.orders[1] is Halt,
{
    assert((game_mode & 0x7 == 1) == (game_mode % 8 == 1)) by (bit_vector);
    assert(a.after.vitals@ == a.before.vitals@.respawned());
    assert(a.after.vitals.effects@ == Map::<u8, super::vitals::ActiveEffect>::empty());
    vstd::arithmetic::power2::lemma2_to64();
    let h = a.after.vitals.health;
    assert(h.bits == 0x41a0_0000);
    assert(h.exponent() == 131 && h.fraction() == 0x20_0000);
    assert(h.scale() == -19);
    assert(vstd::arithmetic::power2::pow2(19) == 524288);
    assert(h.significand() == 10485760);
    assert((10485760 + 524288 - 1) / 524288 == 20);
    assert(h.ceiling() == 20);
}

/// The player is told where to be: each coordinate comes from the packet, and is added to
/// the old one exactly if its flag is set. The place is then known and to be confirmed, and
/// the next tick holds still.
pub proof fn law_the_player_is_where_told(
    a: Arrival,
    x: Real64,
    y: Real64,
    z: Real64,
    yaw: Real32,
    pitch: Real32,
    flags: i8,
)
    requires
        a.of(ClientboundPlayPacket::PlayerPositionLook { x, y, z, yaw, pitch, flags }),
    ensures
        a.orders.len() == 1,
        a.orders[0] matches Order::Teleport {
            x: px,
            y: py,
            z: pz,
            yaw: facing,
            pitch: tilt,
            add_x,
            add_y,
            add_z,
            add_yaw,
            add_pitch,
        } && {
            let bits = flags as u8;
            &&& px == x && py == y && pz == z && facing == yaw && tilt == pitch
            &&& add_x <==> bits % 2 == 1
            &&& add_y <==> bits / 2 % 2 == 1
            &&& add_z <==> bits / 4 % 2 == 1
            &&& add_yaw <==> bits / 8 % 2 == 1
            &&& add_pitch <==> bits / 16 % 2 == 1
        },
        a.after.session.position_synced,
        a.after.session.pending_confirm,
        a.after.session.player_id == a.before.session.player_id,
        a.after.session.dimension == a.before.session.dimension,
        a.after.motion.freeze_movement_after_teleport,
        a.after.motion.capabilities == a.before.motion.capabilities,
        a.after.vitals == a.before.vitals,
        a.after.hands == a.before.hands,
{
    assert({
        let bits = flags as u8;
        &&& (flags & 0x01 != 0) == (bits % 2 == 1)
        &&& (flags & 0x02 != 0) == (bits / 2 % 2 == 1)
        &&& (flags & 0x04 != 0) == (bits / 4 % 2 == 1)
        &&& (flags & 0x08 != 0) == (bits / 8 % 2 == 1)
        &&& (flags & 0x10 != 0) == (bits / 16 % 2 == 1)
    }) by (bit_vector);
}

/// Reported health, food and saturation are kept each in its place; whoever has no health
/// left is dead, and nobody else. Hearts blink twenty ticks after damage and ten after
/// healing, showing the health from before, and not otherwise.
pub proof fn law_health_is_as_reported(
    a: Arrival,
    health: Real32,
    food: i32,
    food_saturation: Real32,
)
    requires
        a.of(ClientboundPlayPacket::UpdateHealth { health, food, food_saturation }),
    ensures
        a.after.vitals.health == health,
        a.after.vitals.food == food,
        a.after.vitals.saturation == food_saturation,
        a.after.vitals.health_received,
        !health.nan() ==> (a.after.vitals.is_dead <==> health.bits == 0 || health.bits
            >= 0x8000_0000),
        health.nan() ==> !a.after.vitals.is_dead,
        ({
            let old_hearts = a.before.vitals.health.spec_ceil();
            let new_hearts = health.spec_ceil();
            let counted = a.before.vitals.hud_update_counter;
            let told = a.before.vitals.health_received;
            &&& !told ==> a.after.vitals.last_player_health == new_hearts
            &&& told && new_hearts < old_hearts ==> a.after.vitals.health_update_counter == counted
                + 20 && a.after.vitals.last_player_health == old_hearts
            &&& told && new_hearts > old_hearts ==> a.after.vitals.health_update_counter == counted
                + 10 && a.after.vitals.last_player_health == old_hearts
            &&& told && new_hearts == old_hearts ==> a.after.vitals.last_player_health
                == a.before.vitals.last_player_health
            &&& !told || new_hearts == old_hearts ==> a.after.vitals.health_update_counter
                == a.before.vitals.health_update_counter
        }),
        a.after.vitals.max_health == a.before.vitals.max_health,
        a.after.vitals.xp_level == a.before.vitals.xp_level,
        a.after.vitals.xp_bar == a.before.vitals.xp_bar,
        a.after.vitals.effects@ == a.before.vitals.effects@,
        a.after.session == a.before.session,
        a.after.hands == a.before.hands,
        a.orders_nothing(),
{
    assert(a.after.vitals@ == a.before.vitals@.with_health(health, food, food_saturation));
    assert(i32::MIN <= health.spec_ceil() <= i32::MAX);
    assert(i32::MIN <= a.before.vitals.health.spec_ceil() <= i32::MAX);
}

/// A level is kept as told; the bar is kept within nought and one, and as told between.
pub proof fn law_experience_is_as_reported(a: Arrival, bar: Real32, level: i32)
    requires
        a.of(ClientboundPlayPacket::SetExperience { bar, level }),
    ensures
        a.after.vitals.xp_level == level,
        0 <= bar.bits <= 0x3f80_0000 ==> a.after.vitals.xp_bar == bar,
        0x3f80_0000 < bar.bits < 0x7f80_0000 ==> a.after.vitals.xp_bar.bits == 0x3f80_0000,
        0x8000_0000 < bar.bits < 0xff80_0000 ==> a.after.vitals.xp_bar.bits == 0,
        a.after.vitals.health == a.before.vitals.health,
        a.after.vitals.food == a.before.vitals.food,
        a.after.vitals.is_dead == a.before.vitals.is_dead,
        a.after.session == a.before.session,
        a.orders_nothing(),
{
    assert(a.after.vitals@.xp_bar == bar.spec_clamped());
    assert(0x3f80_0000 < bar.bits < 0x7f80_0000 ==> !bar.nan());
    assert(0x8000_0000 < bar.bits < 0xff80_0000 ==> !bar.nan());
}

/// The server's choice of hotbar slot is taken; beyond either end, the end's.
pub proof fn law_the_held_slot_is_as_told(a: Arrival, slot: i8)
    requires
        a.of(ClientboundPlayPacket::HeldItemChange { slot }),
    ensures
        0 <= slot < 9 ==> a.after.hands@.selected_slot == slot,
        slot < 0 ==> a.after.hands@.selected_slot == 0,
        slot >= 9 ==> a.after.hands@.selected_slot == 8,
        a.after.hands@.creative == a.before.hands@.creative,
        a.after.hands@.current_player_item == a.before.hands@.current_player_item,
        a.after.windows == a.before.windows,
        a.orders_nothing(),
{
}

/// Abilities are as told, each in its place.
pub proof fn law_abilities_are_as_told(
    a: Arrival,
    invulnerable: bool,
    flying: bool,
    allow_flying: bool,
    creative: bool,
    fly_speed: Real32,
    walk_speed: Real32,
)
    requires
        a.of(
            ClientboundPlayPacket::PlayerAbilities {
                invulnerable,
                flying,
                allow_flying,
                creative,
                fly_speed,
                walk_speed,
            },
        ),
    ensures
        a.after.motion.capabilities.invulnerable == invulnerable,
        a.after.motion.capabilities.flying == flying,
        a.after.motion.capabilities.allow_flying == allow_flying,
        a.after.motion.capabilities.creative == creative,
        a.after.motion.capabilities.fly_speed == fly_speed,
        a.after.motion.capabilities.walk_speed == walk_speed,
        a.after.motion.abilities_dirty == a.before.motion.abilities_dirty,
        a.after.hands == a.before.hands,
        a.after.session == a.before.session,
        a.orders_nothing(),
{
}

// ── Effects ───────────────────────────────────────────────────────────────

/// The player's own effects start with the strength and time told and leave the others
/// alone; effects on somebody else leave the player's as they are.
pub proof fn law_effects_start_as_told(
    a: Arrival,
    entity_id: i32,
    effect_id: i8,
    amplifier: i8,
    duration: i32,
    other: u8,
)
    requires
        a.of(ClientboundPlayPacket::EntityEffect { entity_id, effect_id, amplifier, duration }),
    ensures
        entity_id == a.me() ==> {
            &&& a.after.vitals.effects@.dom().contains(effect_id as u8)
            &&& a.after.vitals.effects@[effect_id as u8].amplifier == amplifier
            &&& a.after.vitals.effects@[effect_id as u8].duration == duration
        },
        entity_id != a.me() || other != effect_id as u8 ==> {
            &&& a.after.vitals.effects@.dom().contains(other)
                == a.before.vitals.effects@.dom().contains(other)
            &&& a.before.vitals.effects@.dom().contains(other) ==> a.after.vitals.effects@[other]
                == a.before.vitals.effects@[other]
        },
        a.after.vitals.health == a.before.vitals.health,
        a.after.session == a.before.session,
        a.orders_nothing(),
{
    assert(a.after.vitals@.effects == a.after.vitals.effects@);
    assert(a.before.vitals@.effects == a.before.vitals.effects@);
}

/// An effect of the player's ends when told, and no other does.
pub proof fn law_effects_end_as_told(a: Arrival, entity_id: i32, effect_id: i8, other: u8)
    requires
        a.of(ClientboundPlayPacket::RemoveEntityEffect { entity_id, effect_id }),
    ensures
        entity_id == a.me() ==> !a.after.vitals.effects@.dom().contains(effect_id as u8),
        entity_id != a.me() || other != effect_id as u8 ==> {
            &&& a.after.vitals.effects@.dom().contains(other)
                == a.before.vitals.effects@.dom().contains(other)
            &&& a.before.vitals.effects@.dom().contains(other) ==> a.after.vitals.effects@[other]
                == a.before.vitals.effects@[other]
        },
        a.after.vitals.health == a.before.vitals.health,
        a.after.session == a.before.session,
        a.orders_nothing(),
{
    assert(a.after.vitals@.effects == a.after.vitals.effects@);
    assert(a.before.vitals@.effects == a.before.vitals.effects@);
}

/// The health display knows regeneration, hunger, poison and wither by their numbers, and
/// shows two more yellow hearts for each level of absorption.
pub proof fn law_the_display_shows_the_effects(v: Vitals, hud: HudVitals)
    requires
        v.shown_as(hud),
    ensures
        hud.regen <==> v.effects@.dom().contains(10u8),
        hud.hunger_effect <==> v.effects@.dom().contains(17u8),
        hud.poison <==> v.effects@.dom().contains(19u8),
        hud.wither <==> v.effects@.dom().contains(20u8),
        hud.absorption > 0 ==> v.effects@.dom().contains(22u8),
        v.effects@.dom().contains(22u8) ==> hud.absorption == 4 + 4 * v.effects@[22u8].amplifier,
        !v.effects@.dom().contains(22u8) ==> hud.absorption == 0,
        hud.max_health == v.max_health,
        hud.saturation == v.saturation,
        hud.last_player_health == v.last_player_health,
        hud.update_counter == v.hud_update_counter,
        hud.health_update_counter == v.health_update_counter,
{
    assert(v@.effects == v.effects@);
}

// ── Windows ───────────────────────────────────────────────────────────────

/// An opened window has the number and title told, is empty and waits to be shown; what the
/// player has and carries stays, and a drag ends.
pub proof fn law_opened_windows_are_empty(
    a: Arrival,
    window_id: u8,
    inventory_type: String,
    title: String,
    slots: u8,
    i: int,
)
    requires
        a.of(ClientboundPlayPacket::OpenWindow { window_id, inventory_type, title, slots }),
    ensures
        a.after.windows.open_container matches Some(c) && {
            &&& c.window_id == window_id
            &&& c.title@ == flat_message(title@, a.lang)
            &&& 0 <= i < c.container_inv@.len() ==> c.container_inv@[i] is None
            &&& c.container_inv@.len() >= slots
            &&& c.action == 0
            &&& c.trades@.len() == 0
            &&& c.drag_slots@.len() == 0
            &&& 0 <= i < 8 ==> c.properties@[i] == 0
        },
        a.after.windows.window_open_pending,
        a.after.windows.window_close_pending == a.before.windows.window_close_pending,
        a.after.windows.inventory == a.before.windows.inventory,
        a.after.windows.cursor_item == a.before.windows.cursor_item,
        !a.after.windows.drag_active,
        a.after.windows.drag_slots@.len() == 0,
        a.after.vitals == a.before.vitals,
        a.orders_nothing(),
{
}

/// The server closes the window it names: it goes, and what was carried with it. Another
/// one stays, and so does everything else.
pub proof fn law_windows_close_by_number(a: Arrival, window_id: u8)
    requires
        a.of(ClientboundPlayPacket::CloseWindowS { window_id }),
    ensures
        a.before.windows.open_container matches Some(c) ==> (c.window_id == window_id ==> {
            &&& a.after.windows.open_container is None
            &&& a.after.windows.cursor_item is None
            &&& a.after.windows.window_close_pending
            &&& !a.after.windows.drag_active
        }),
        a.before.windows.open_container matches Some(c) ==> (c.window_id != window_id
            ==> a.after.windows == a.before.windows),
        a.before.windows.open_container is None ==> a.after.windows == a.before.windows,
        a.after.windows.inventory == a.before.windows.inventory,
        a.after.vitals == a.before.vitals,
        a.orders_nothing(),
{
}

/// A property of the open window takes the value told, if there is such a property and the
/// window is the one named; the others keep theirs.
pub proof fn law_properties_are_set_by_number(
    a: Arrival,
    window_id: u8,
    property: i16,
    value: i16,
    i: int,
)
    requires
        a.of(ClientboundPlayPacket::WindowProperty { window_id, property, value }),
        a.before.windows.open_container is Some,
        0 <= i < 8,
    ensures
        ({
            let c = a.before.windows.open_container->0;
            a.after.windows.open_container matches Some(d) && {
                &&& c.window_id == window_id && i == property ==> d.properties@[i] == value
                &&& c.window_id != window_id || i != property ==> d.properties@[i]
                    == c.properties@[i]
                &&& d.slots == c.slots && d.container_inv == c.container_inv && d.window_id
                    == c.window_id && d.action == c.action
            }
        }),
        a.after.windows.inventory == a.before.windows.inventory,
        a.after.windows.cursor_item == a.before.windows.cursor_item,
        a.orders_nothing(),
{
}

/// A stack for no window and no slot is carried from then on.
pub proof fn law_the_carried_stack_is_as_told(
    a: Arrival,
    window_id: i8,
    slot: i16,
    item: Option<SlotItem>,
)
    requires
        a.of(ClientboundPlayPacket::SetSlot { window_id, slot, item }),
        window_id == -1,
        slot == -1,
    ensures
        a.after.windows.cursor_item == item,
        a.after.windows.inventory == a.before.windows.inventory,
        a.after.windows.open_container == a.before.windows.open_container,
        a.orders_nothing(),
{
}

/// A slot of the open window takes the stack told; the other slots keep theirs, and so does
/// the cursor.
pub proof fn law_window_slots_are_as_told(
    a: Arrival,
    window_id: i8,
    slot: i16,
    item: Option<SlotItem>,
    other: int,
)
    requires
        a.before.wf(),
        a.of(ClientboundPlayPacket::SetSlot { window_id, slot, item }),
        a.before.windows.open_container matches Some(c) && c.window_id as i8 == window_id
            && 0 <= slot < c.slots@.len() < 0x8000 && 0 <= other < c.slots@.len(),
    ensures
        ({
            let slots = a.before.windows.open_container->0.slots@;
            &&& a.after.windows.open_container matches Some(d) && d.slots@ == slots
            &&& a.after.windows.state().read(slots, slot as int) == stack_view(item)
            &&& other != slot ==> a.after.windows.state().read(slots, other)
                == a.before.windows.state().read(slots, other)
        }),
        a.after.windows.cursor_item == a.before.windows.cursor_item,
        a.orders_nothing(),
{
    let c = a.before.windows.open_container->0;
    assert(c.wf());
    assert(as_short(c.slots@.len() as int) == c.slots@.len());
    assert(window_id == -1 && slot == -1 ==> false);
    let st = a.before.windows.state();
    assert(crate::container::state::back_in_range(
        c.slots@[slot as int].back,
        c.container_inv@.len() as int,
        45,
    ));
    assert(crate::container::state::back_in_range(
        c.slots@[other].back,
        c.container_inv@.len() as int,
        45,
    ));
    assert(st.player.len() == 45 && st.inv.len() == c.container_inv@.len());
    lemma_put_apart(st, c.slots@, slot as int, other, stack_view(item));
}

proof fn lemma_put_apart(
    st: WindowState,
    slots: Seq<Slot>,
    s: int,
    t: int,
    item: Option<ItemModel>,
)
    requires
        crate::container::state::back_in_range(slots[s].back, st.inv.len() as int, st.player.len() as int),
        s != t ==> slots[s].back != slots[t].back,
    ensures
        st.write(slots, s, item).read(slots, s) == item,
        s != t ==> st.write(slots, s, item).read(slots, t) == st.read(slots, t),
        st.write(slots, s, item).inv.len() == st.inv.len(),
        st.write(slots, s, item).player.len() == st.player.len(),
        st.write(slots, s, item).cursor == st.cursor,
{
}

/// A stack for the player's window while another is open, or none, goes into the player's
/// inventory, and no other place changes.
pub proof fn law_inventory_places_are_as_told(
    a: Arrival,
    slot: i16,
    item: Option<SlotItem>,
    other: int,
)
    requires
        a.before.wf(),
        a.of(ClientboundPlayPacket::SetSlot { window_id: 0, slot, item }),
        a.before.windows.open_container matches Some(c) ==> c.window_id as i8 != 0,
        0 <= slot < 45,
        0 <= other < 45,
    ensures
        a.after.windows.inventory@[slot as int] == item,
        other != slot ==> a.after.windows.inventory@[other] == a.before.windows.inventory@[other],
        a.after.windows.cursor_item == a.before.windows.cursor_item,
        a.after.windows.open_container == a.before.windows.open_container,
        a.orders_nothing(),
{
}

/// A stack for a window that is not open, other than the player's, changes nothing.
pub proof fn law_slots_of_other_windows_are_ignored(
    a: Arrival,
    window_id: i8,
    slot: i16,
    item: Option<SlotItem>,
)
    requires
        a.of(ClientboundPlayPacket::SetSlot { window_id, slot, item }),
        a.before.windows.open_container matches Some(c) ==> c.window_id as i8 != window_id,
        window_id > 0 || (window_id == 0 && (slot < 0 || slot >= 45)),
    ensures
        a.leaves_the_game(),
        a.orders_nothing(),
{
}

proof fn lemma_written(
    slots: Seq<Slot>,
    st: WindowState,
    items: Seq<Option<ItemModel>>,
    k: int,
    i: int,
)
    requires
        0 <= k,
        0 <= i < slots.len(),
        forall|s: int|
            0 <= s < slots.len() ==> crate::container::state::back_in_range(
                (#[trigger] slots[s]).back,
                st.inv.len() as int,
                st.player.len() as int,
            ),
        forall|s: int, t: int|
            0 <= s < t < slots.len() ==> (#[trigger] slots[s]).back != (#[trigger] slots[t]).back,
    ensures
        ({
            let after = items_written(slots, st, items, k);
            &&& after.read(slots, i) == if k <= i < items.len() {
                items[i]
            } else {
                st.read(slots, i)
            }
            &&& after.cursor == st.cursor
        }),
    decreases items.len() - k,
{
    if k < items.len() && k < slots.len() {
        lemma_put_apart(st, slots, k, i, items[k]);
        lemma_written(slots, st.write(slots, k, items[k]), items, k + 1, i);
    }
}

/// All slots of the open window at once: each takes the stack of its number, and those past
/// the list keep theirs.
pub proof fn law_all_window_slots_are_as_told(
    a: Arrival,
    window_id: u8,
    items: Vec<Option<SlotItem>>,
    i: int,
)
    requires
        a.before.wf(),
        a.of(ClientboundPlayPacket::WindowItems { window_id, items }),
        a.before.windows.open_container matches Some(c) && c.window_id == window_id && 0 <= i
            < c.slots@.len(),
    ensures
        ({
            let slots = a.before.windows.open_container->0.slots@;
            a.after.windows.state().read(slots, i) == if i < items@.len() {
                stack_view(items@[i])
            } else {
                a.before.windows.state().read(slots, i)
            }
        }),
        a.after.windows.cursor_item == a.before.windows.cursor_item,
        a.orders_nothing(),
{
    let c = a.before.windows.open_container->0;
    let st = a.before.windows.state();
    assert(c.wf());
    assert(st.player.len() == 45 && st.inv.len() == c.container_inv@.len());
    lemma_written(c.slots@, st, inventory_view(items@), 0, i);
}

/// All places of the player's inventory at once: each takes the stack of its number, and
/// those past the list are empty.
pub proof fn law_the_whole_inventory_is_as_told(
    a: Arrival,
    items: Vec<Option<SlotItem>>,
    i: int,
)
    requires
        a.of(ClientboundPlayPacket::WindowItems { window_id: 0, items }),
        a.before.windows.open_container matches Some(c) ==> c.window_id != 0,
        0 <= i < 45,
    ensures
        inventory_view(a.after.windows.inventory@)[i] == if i < items@.len() {
            stack_view(items@[i])
        } else {
            None
        },
        inventory_view(a.after.windows.inventory@).len() == 45,
        a.after.windows.open_container == a.before.windows.open_container,
        a.after.windows.cursor_item == a.before.windows.cursor_item,
        a.orders_nothing(),
{
}

/// Trade offers reach the window they are for, as they are listed; the chosen one stays the
/// chosen one while there are so many. Any other message, or window, changes nothing.
pub proof fn law_offers_reach_their_window(a: Arrival, channel: String, data: Vec<u8>)
    requires
        a.of(ClientboundPlayPacket::PluginMessage { channel, data }),
    ensures
        channel@ != "MC|TrList"@ ==> a.after == a.before,
        channel@ == "MC|TrList"@ ==> (a.before.windows.open_container matches Some(c) ==> (
        trade_list_at(data@) matches Some((window, recipes)) ==> {
            &&& c.window_id == window ==> (a.after.windows.open_container matches Some(d) && {
                &&& recipes_view(d.trades@) == recipes
                &&& c.selected_trade < recipes.len() ==> d.selected_trade == c.selected_trade
                &&& recipes.len() > 0 ==> d.selected_trade < recipes.len()
                &&& d.slots == c.slots && d.container_inv == c.container_inv
            })
            &&& c.window_id != window ==> a.after.windows.open_container == Some(c)
        })),
        a.after.windows.inventory == a.before.windows.inventory,
        a.after.windows.cursor_item == a.before.windows.cursor_item,
        a.after.vitals == a.before.vitals,
        a.orders_nothing(),
{
}

// ── Chat, titles and signs ────────────────────────────────────────────────

/// Messages for the action bar are shown there, from now on; the backlog stays.
pub proof fn law_action_bar_messages_stay_out_of_the_backlog(a: Arrival, json: String)
    requires
        a.of(ClientboundPlayPacket::ChatMessage { json, position: 2 }),
    ensures
        a.after.chat.action_bar matches Some((text, since)) && text@ == flat_message(json@, a.lang)
            && since == a.now,
        a.after.chat.lines == a.before.chat.lines,
        a.after.chat.sent == a.before.chat.sent,
        a.orders_nothing(),
{
}

/// Any other message becomes the newest line of the backlog, received now, with the events
/// of its parts; older lines keep their order, and up to the hundredth none is lost.
pub proof fn law_messages_become_the_newest_line(a: Arrival, json: String, position: i8, i: int)
    requires
        a.of(ClientboundPlayPacket::ChatMessage { json, position }),
        position != 2,
    ensures
        ({
            let old_lines = backlog_view(a.before.chat.lines@);
            let new_lines = backlog_view(a.after.chat.lines@);
            &&& new_lines.len() > 0
            &&& new_lines.last().segments == message_segments(json@, a.lang)
            &&& new_lines.last().text == segments_text(message_segments(json@, a.lang))
            &&& new_lines.last().received == a.now
            &&& new_lines.len() == if old_lines.len() < 100 {
                old_lines.len() + 1
            } else {
                100
            }
            &&& 1 <= i <= old_lines.len() && i < new_lines.len() ==> new_lines[new_lines.len() - 1
                - i] == old_lines[old_lines.len() - i]
        }),
        a.after.chat.action_bar == a.before.chat.action_bar,
        a.after.chat.sent == a.before.chat.sent,
        a.orders_nothing(),
{
}

/// Completions are those told, and start over from the first.
pub proof fn law_completions_are_as_told(a: Arrival, found: Vec<String>)
    requires
        a.of(ClientboundPlayPacket::TabComplete { matches: found }),
    ensures
        a.after.chat.completions == found,
        a.after.chat.completion_cursor == 0,
        a.after.chat.lines == a.before.chat.lines,
        a.after.chat.sent == a.before.chat.sent,
        a.after.chat.sent_cursor == a.before.chat.sent_cursor,
        a.orders_nothing(),
{
}

/// A sign reads as told, line by line, and no other sign does otherwise than before.
pub proof fn law_signs_read_as_told(
    a: Arrival,
    x: i32,
    y: i32,
    z: i32,
    lines: Vec<String>,
    i: int,
    other: BlockPos,
)
    requires
        a.of(ClientboundPlayPacket::UpdateSign { x, y, z, lines }),
        0 <= i < lines@.len(),
    ensures
        sign_text(a.after.fixtures.signs@, BlockPos { x, y, z }) matches Some(text) && text.len()
            == lines@.len() && text[i] == flat_message(lines@[i]@, a.lang),
        other.x != x || other.y != y || other.z != z ==> sign_text(a.after.fixtures.signs@, other)
            == sign_text(a.before.fixtures.signs@, other),
        a.after.fixtures.open_chests == a.before.fixtures.open_chests,
        a.orders_nothing(),
{
    assert(sign_text(a.after.fixtures.signs@, BlockPos { x, y, z }) == Some(
        super::fixtures::flattened(lines@, a.lang),
    ));
}

/// A title starts to show with its text, for its whole time; a subtitle only changes the
/// text below.
pub proof fn law_titles_start_with_their_text(a: Arrival, json: String)
    ensures
        a.of(ClientboundPlayPacket::Title { action: TitleAction::Title { json } }) ==> {
            &&& a.after.title@.title == flat_message(json@, a.lang)
            &&& a.after.title@.subtitle == a.before.title@.subtitle
            &&& a.after.title@.timer == a.before.title@.fade_in + a.before.title@.stay
                + a.before.title@.fade_out
            &&& a.after.title@.stay == a.before.title@.stay
            &&& a.orders_nothing()
        },
        a.of(ClientboundPlayPacket::Title { action: TitleAction::Subtitle { json } }) ==> {
            &&& a.after.title@.subtitle == flat_message(json@, a.lang)
            &&& a.after.title@.title == a.before.title@.title
            &&& a.after.title@.timer == a.before.title@.timer
            &&& a.orders_nothing()
        },
        a.of(ClientboundPlayPacket::Title { action: TitleAction::Clear }) ==> {
            &&& a.after.title@.title.len() == 0 && a.after.title@.subtitle.len() == 0
            &&& a.after.title@.timer == 0
            &&& a.after.title@.stay == a.before.title@.stay
        },
        a.of(ClientboundPlayPacket::Title { action: TitleAction::Reset }) ==> {
            &&& a.after.title@.title.len() == 0 && a.after.title@.subtitle.len() == 0
            &&& a.after.title@.timer == 0
            &&& a.after.title@.fade_in == 10 && a.after.title@.stay == 70
                && a.after.title@.fade_out == 20
        },
{
}

/// New times replace the old ones unless negative, each its own; a title that shows starts
/// over with them, and one that does not stays hidden.
pub proof fn law_title_times_are_as_told(a: Arrival, fade_in: i32, stay: i32, fade_out: i32)
    requires
        a.of(
            ClientboundPlayPacket::Title { action: TitleAction::Times { fade_in, stay, fade_out } },
        ),
    ensures
        fade_in >= 0 ==> a.after.title@.fade_in == fade_in,
        fade_in < 0 ==> a.after.title@.fade_in == a.before.title@.fade_in,
        stay >= 0 ==> a.after.title@.stay == stay,
        stay < 0 ==> a.after.title@.stay == a.before.title@.stay,
        fade_out >= 0 ==> a.after.title@.fade_out == fade_out,
        fade_out < 0 ==> a.after.title@.fade_out == a.before.title@.fade_out,
        a.before.title@.timer > 0 ==> a.after.title@.timer == a.after.title@.fade_in
            + a.after.title@.stay + a.after.title@.fade_out,
        a.before.title@.timer <= 0 ==> a.after.title@.timer == a.before.title@.timer,
        a.after.title@.title == a.before.title@.title,
        a.after.title@.subtitle == a.before.title@.subtitle,
{
}

// ── Time and weather ──────────────────────────────────────────────────────

/// The server's time of day is taken within a day; a negative one says that the time stands
/// still at its opposite.
pub proof fn law_the_time_is_as_told(a: Arrival, time_of_day: i64)
    requires
        a.of(ClientboundPlayPacket::TimeUpdate { time_of_day }),
        time_of_day > i64::MIN,
    ensures
        ({
            let size = if time_of_day < 0 {
                -time_of_day
            } else {
                time_of_day as int
            };
            &&& 0 <= a.after.clock.world_time < 24000
            &&& a.after.clock.world_time == size % 24000
            &&& a.after.clock.daylight_cycle == (time_of_day >= 0)
        }),
        a.after.clock.time_rate == a.before.clock.time_rate,
        a.after.weather == a.before.weather,
        a.orders_nothing(),
{
}

/// Rain stops and starts when told, thunder never outlives it, and strengths are taken as
/// told, up to full; other changes leave the weather.
pub proof fn law_the_weather_is_as_told(a: Arrival, reason: u8, level: u64)
    requires
        a.of(ClientboundPlayPacket::ChangeGameState { reason, level }),
    ensures
        reason == 1 ==> !a.after.weather.raining && !a.after.weather.thundering
            && a.after.weather.rain == a.before.weather.rain,
        reason == 2 ==> a.after.weather.raining && a.after.weather.thundering
            == a.before.weather.thundering && a.after.weather.rain == a.before.weather.rain,
        reason == 7 && level <= 1_000_000_000 ==> a.after.weather.rain == level
            && a.after.weather.prev_rain == level && a.after.weather.raining == (level > 0)
            && a.after.weather.thunder == a.before.weather.thunder,
        reason == 8 && level <= 1_000_000_000 ==> a.after.weather.thunder == level
            && a.after.weather.prev_thunder == level && a.after.weather.thundering == (level > 0)
            && a.after.weather.rain == a.before.weather.rain,
        reason == 7 && level > 1_000_000_000 ==> a.after.weather.rain
            == 1_000_000_000 && a.after.weather.raining,
        reason == 8 && level > 1_000_000_000 ==> a.after.weather.thunder
            == 1_000_000_000 && a.after.weather.thundering,
        reason != 1 && reason != 2 && reason != 7 && reason != 8 ==> a.after == a.before,
        a.after.weather.lightning_flash == a.before.weather.lightning_flash,
        a.after.clock == a.before.clock,
        a.orders_nothing(),
{
}

} // verus!
