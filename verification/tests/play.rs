//! What packets do to a running game: windows, vitals, the title, entities, sounds.

use fpsmaster_app::chat::lang::Language;
use fpsmaster_app::clientbound::{
    AttributeModifier, ClientboundPlayPacket, EntityProperty, MetadataEntry, MetadataValue,
};
use fpsmaster_app::game::dispatch::{
    attribute_steps, AttributeKind, EntityKind, Order, Outcome,
};
use fpsmaster_app::game::drawing::{
    boss_bar, build_chest_models, primed_tnt, projectile, BossSight, ChestDraw, ChestKind,
    ChestSite, Plate, SeenEntity, Shimmer,
};
use fpsmaster_app::game::fixtures::BlockPos;
use fpsmaster_app::game::music::{MusicCommand, MusicTicker, MusicType};
use fpsmaster_app::game::rules::{projectile_item_id, xp_orb_texture_cell, BlockState};
use fpsmaster_app::game::sounds::{note_event, Material, Mood, Move, MoveSound, Steps};
use fpsmaster_app::game::state::GameState;
use fpsmaster_app::game::title::TitleAction;
use fpsmaster_app::game::vitals::{
    POTION_ABSORPTION, POTION_HUNGER, POTION_POISON, POTION_REGENERATION, POTION_WITHER,
};
use fpsmaster_app::item::SlotItem;
use fpsmaster_app::packets::{Real32, Real64, ServerboundPacket};

/// A tick, in billionths.
const TICK: u64 = 1_000_000_000;

/// The modifier that sprinting stands for.
const SPRINT_SPEED_BOOST_UUID: [u8; 16] = [
    0x66, 0x2a, 0x6b, 0x8d, 0xda, 0x3e, 0x4c, 0x1c, 0x88, 0x13, 0x96, 0xea, 0x60, 0x97, 0x27, 0x8d,
];

fn r64(x: f64) -> Real64 {
    Real64 { bits: x.to_bits() }
}

fn r32(x: f32) -> Real32 {
    Real32 { bits: x.to_bits() }
}

fn float(x: Real32) -> f32 {
    f32::from_bits(x.bits)
}

fn double(x: Real64) -> f64 {
    f64::from_bits(x.bits)
}

fn no_language() -> Language {
    Language { entries: Vec::new() }
}

fn item(id: i16, count: u8) -> SlotItem {
    SlotItem::new(id, count, 0)
}

/// Hand a packet to the game.
fn apply(g: &mut GameState, packet: ClientboundPlayPacket) -> Outcome {
    assert!(g.packet_in_range(&packet));
    g.apply_play_packet(packet, &no_language(), 0)
}

/// The value of an attribute: the floating-point arithmetic of the host, over the steps
/// that the library chooses.
fn attribute_value(kind: AttributeKind, property: &EntityProperty) -> f64 {
    let mut base = double(property.base);
    let mut value = base;
    for step in attribute_steps(kind, &property.modifiers) {
        let amount = double(step.amount);
        match step.operation {
            0 => {
                base += amount;
                value = base;
            }
            1 => value += base * amount,
            _ => value *= 1.0 + amount,
        }
    }
    value.max(0.0)
}

/// Carry out the attribute orders; the walking speed, where one sets it.
fn follow_attributes(g: &mut GameState, done: &Outcome) -> Option<f64> {
    let mut speed = None;
    for order in &done.orders {
        if let Order::Attribute { kind, property } = order {
            let value = attribute_value(*kind, property);
            match kind {
                AttributeKind::MovementSpeed => speed = Some(value),
                AttributeKind::MaxHealth => g.vitals.max_health = r32(value as f32),
            }
        }
    }
    speed
}

/// An entity in plain sight.
fn seen(id: i32, kind: EntityKind) -> SeenEntity {
    SeenEntity {
        id,
        kind,
        far: false,
        out_of_view: false,
        invisible: false,
        sneaking: false,
        using_item: false,
        custom_name: None,
        custom_name_visible: false,
        hurt_time: 0,
        death_time: 0,
        shimmer: Shimmer { feet: false, legs: false, chest: false, head: false },
        pose: [0; 9],
        death_roll: 0,
    }
}

fn spawn_object(entity_id: i32, kind: i8, data: i32) -> ClientboundPlayPacket {
    ClientboundPlayPacket::SpawnObject {
        entity_id,
        kind,
        x: r64(3.0),
        y: r64(80.0),
        z: r64(0.5),
        yaw: r32(0.0),
        pitch: r32(0.0),
        data,
        velocity: None,
    }
}

// ── Windows ───────────────────────────────────────────────────────────────

#[test]
fn left_click_picks_up_then_places_a_stack() {
    let mut g = GameState::empty_for_server();
    g.open_player_inventory();
    g.windows.inventory[9] = Some(item(1, 64));
    g.container_click(9, 0, 0);
    assert_eq!(g.windows.cursor_item, Some(item(1, 64)));
    assert_eq!(g.windows.inventory[9], None);
    g.container_click(10, 0, 0);
    assert_eq!(g.windows.cursor_item, None);
    assert_eq!(g.windows.inventory[10], Some(item(1, 64)));
}

#[test]
fn right_click_takes_the_ceil_half() {
    let mut g = GameState::empty_for_server();
    g.open_player_inventory();
    g.windows.inventory[9] = Some(item(1, 9));
    g.container_click(9, 1, 0);
    assert_eq!(g.windows.cursor_item, Some(item(1, 5)));
    assert_eq!(g.windows.inventory[9], Some(item(1, 4)));
}

#[test]
fn left_click_merges_up_to_the_max_stack() {
    let mut g = GameState::empty_for_server();
    g.open_player_inventory();
    g.windows.inventory[9] = Some(item(1, 60));
    g.windows.cursor_item = Some(item(1, 20));
    g.container_click(9, 0, 0);
    assert_eq!(g.windows.inventory[9], Some(item(1, 64)));
    assert_eq!(g.windows.cursor_item, Some(item(1, 16)));
}

#[test]
fn different_items_swap_on_click() {
    let mut g = GameState::empty_for_server();
    g.open_player_inventory();
    g.windows.inventory[9] = Some(item(1, 10));
    g.windows.cursor_item = Some(item(5, 3));
    g.container_click(9, 0, 0);
    assert_eq!(g.windows.inventory[9], Some(item(5, 3)));
    assert_eq!(g.windows.cursor_item, Some(item(1, 10)));
}

#[test]
fn shift_click_moves_a_hotbar_stack_into_the_main_inventory() {
    let mut g = GameState::empty_for_server();
    g.open_player_inventory();
    g.windows.inventory[36] = Some(item(1, 10));
    let packets = g.container_click(36, 0, 1);
    assert_eq!(g.windows.inventory[36], None);
    assert_eq!(g.windows.inventory[9], Some(item(1, 10)));
    assert!(matches!(
        packets[0],
        ServerboundPacket::ClickWindow { mode: 1, slot: 36, .. }
    ));
}

#[test]
fn q_drops_one_outside_click_drops_the_cursor() {
    let mut g = GameState::empty_for_server();
    g.open_player_inventory();
    g.windows.inventory[9] = Some(item(1, 3));
    g.container_click(9, 0, 4); // Q
    assert_eq!(g.windows.inventory[9], Some(item(1, 2)));
    // Outside-window click drops the cursor stack.
    g.windows.cursor_item = Some(item(2, 5));
    g.container_click(-999, 0, 0);
    assert_eq!(g.windows.cursor_item, None);
}

#[test]
fn left_paint_drag_even_splits_across_painted_slots() {
    let mut g = GameState::empty_for_server();
    g.open_player_inventory();
    g.windows.cursor_item = Some(item(1, 6));
    g.container_drag_begin(0);
    g.container_drag_add(9);
    g.container_drag_add(10);
    g.container_drag_add(11);
    let packets = g.container_drag_commit();
    assert_eq!(g.windows.inventory[9], Some(item(1, 2)));
    assert_eq!(g.windows.inventory[10], Some(item(1, 2)));
    assert_eq!(g.windows.inventory[11], Some(item(1, 2)));
    assert_eq!(g.windows.cursor_item, None);
    // start + one per slot + end, all mode 5.
    assert_eq!(packets.len(), 5);
    assert!(packets
        .iter()
        .all(|p| matches!(p, ServerboundPacket::ClickWindow { mode: 5, .. })));
}

#[test]
fn number_key_swaps_with_the_hotbar_slot() {
    let mut g = GameState::empty_for_server();
    g.open_player_inventory();
    g.windows.inventory[9] = Some(item(1, 5));
    g.windows.inventory[36] = Some(item(2, 1));
    g.container_click(9, 0, 2); // press "1" over slot 9
    assert_eq!(g.windows.inventory[9], Some(item(2, 1)));
    assert_eq!(g.windows.inventory[36], Some(item(1, 5)));
}

#[test]
fn server_window_opens_routes_slots_and_closes() {
    let mut g = GameState::empty_for_server();
    // S2D opens a single chest (27 slots); the host is signalled to show it.
    apply(
        &mut g,
        ClientboundPlayPacket::OpenWindow {
            window_id: 5,
            inventory_type: "minecraft:chest".to_owned(),
            title: "{\"text\":\"Chest\"}".to_owned(),
            slots: 27,
        },
    );
    assert!(g.take_window_open());
    assert!(g.open_container().is_some());

    // S30 WindowItems replaces the whole window (27 chest + 36 player).
    apply(
        &mut g,
        ClientboundPlayPacket::WindowItems {
            window_id: 5,
            items: (0..63).map(|_| None).collect(),
        },
    );
    // S2F SetSlot for a chest slot routes through the container.
    apply(
        &mut g,
        ClientboundPlayPacket::SetSlot {
            window_id: 5,
            slot: 0,
            item: Some(item(1, 10)),
        },
    );
    assert_eq!(
        g.open_container().unwrap().slot_item(0, g.inventory_slots()),
        Some(item(1, 10))
    );

    // Shift-click moves the chest stack into the player inventory (reverse
    // fill → last hotbar slot, window slot 62 == inventory slot 44).
    let packets = g.container_click(0, 0, 1);
    assert!(matches!(
        packets[0],
        ServerboundPacket::ClickWindow { window_id: 5, slot: 0, mode: 1, .. }
    ));
    assert_eq!(g.open_container().unwrap().slot_item(0, g.inventory_slots()), None);
    assert_eq!(g.windows.inventory[44], Some(item(1, 10)));

    // S2E force-close drops the window and signals the host to pop the screen.
    apply(&mut g, ClientboundPlayPacket::CloseWindowS { window_id: 5 });
    assert!(g.take_window_close());
    assert!(g.open_container().is_none());
}

#[test]
fn a_drag_is_reported_step_by_step() {
    let mut g = GameState::empty_for_server();
    g.open_player_inventory();
    g.windows.cursor_item = Some(item(1, 5));
    g.container_drag_begin(1);
    g.container_drag_add(9);
    g.container_drag_add(10);
    let packets = g.container_drag_commit();
    let steps: Vec<(i16, i8, i16)> = packets
        .iter()
        .filter_map(|p| match p {
            ServerboundPacket::ClickWindow { slot, button, action_number, .. } => {
                Some((*slot, *button, *action_number))
            }
            _ => None,
        })
        .collect();
    assert_eq!(steps, vec![(-999, 4, 1), (9, 5, 2), (10, 5, 3), (-999, 6, 4)]);
    // The window counts on from there, and the button is kept.
    assert_eq!(g.open_container().unwrap().action, 4);
    assert_eq!(g.windows.drag_button, 1);
    assert_eq!(g.windows.cursor_item, Some(item(1, 3)));
}

#[test]
fn opened_windows_have_their_size_and_places() {
    let mut g = GameState::empty_for_server();
    for (kind, slots, places, width, height) in [
        ("minecraft:chest", 27, 27, 176, 168),
        ("minecraft:furnace", 3, 3, 176, 166),
        ("minecraft:hopper", 5, 5, 176, 133),
    ] {
        apply(
            &mut g,
            ClientboundPlayPacket::OpenWindow {
                window_id: 5,
                inventory_type: kind.to_owned(),
                title: "{}".to_owned(),
                slots,
            },
        );
        let window = g.open_container().unwrap();
        assert_eq!((window.x_size, window.y_size), (width, height), "{kind}");
        assert_eq!(window.container_inv.len(), places, "{kind}");
        assert_eq!(window.slots.len(), places + 36, "{kind}");
    }
    g.open_player_inventory();
    let own = g.open_container().unwrap();
    assert_eq!((own.window_id, own.x_size, own.y_size), (0, 176, 166));
    assert_eq!((own.container_inv.len(), own.slots.len(), own.title.as_str()), (0, 45, ""));
}

#[test]
fn attribute_modifiers_are_applied_by_operation() {
    let modifier = |uuid: u8, amount: f64, operation: i8| AttributeModifier {
        uuid: [uuid; 16],
        amount: r64(amount),
        operation,
    };
    let list = vec![
        modifier(1, 0.5, 2),
        modifier(2, 0.25, 1),
        modifier(3, 3.0, 0),
        modifier(4, 9.0, 3),
        modifier(5, 1.0, 0),
        modifier(0, 100.0, 0),
    ];
    let health = attribute_steps(AttributeKind::MaxHealth, &list);
    let order: Vec<u8> = health.iter().map(|m| m.uuid[0]).collect();
    assert_eq!(order, vec![3, 5, 2, 1]);
    let speed = attribute_steps(AttributeKind::MovementSpeed, &list);
    let order: Vec<u8> = speed.iter().map(|m| m.uuid[0]).collect();
    assert_eq!(order, vec![3, 5, 0, 2, 1]);
    // (4 + 3 + 1) and a quarter of it, and half of that on top.
    let property = property("generic.maxHealth", 4.0, list[..5].to_vec());
    assert_eq!(attribute_value(AttributeKind::MaxHealth, &property), 15.0);
}

#[test]
fn a_drag_over_one_slot_reports_nothing() {
    let mut g = GameState::empty_for_server();
    g.open_player_inventory();
    g.windows.cursor_item = Some(item(1, 6));
    g.container_drag_begin(0);
    g.container_drag_add(9);
    // Painting it again, or something outside the window, adds nothing.
    g.container_drag_add(9);
    g.container_drag_add(900);
    assert_eq!(g.container_drag_len(), 1);
    assert!(g.container_drag_commit().is_empty());
    assert!(!g.container_drag_active());
    assert_eq!(g.windows.cursor_item, Some(item(1, 6)));
}

#[test]
fn closing_tells_the_server_and_clears_the_cursor() {
    let mut g = GameState::empty_for_server();
    assert!(g.container_close().is_none());
    g.open_player_inventory();
    g.windows.cursor_item = Some(item(1, 6));
    assert_eq!(g.container_close(), Some(ServerboundPacket::CloseWindow { window_id: 0 }));
    assert!(g.cursor_item().is_none());
}

#[test]
fn offers_arrive_and_are_chosen() {
    let mut g = GameState::empty_for_server();
    apply(
        &mut g,
        ClientboundPlayPacket::OpenWindow {
            window_id: 7,
            inventory_type: "minecraft:villager".to_owned(),
            title: String::new(),
            slots: 3,
        },
    );
    let mut data = vec![0u8, 0, 0, 7, 1];
    for id in [388i16, 264] {
        data.extend_from_slice(&id.to_be_bytes());
        data.extend_from_slice(&[1, 0, 0, 0]);
    }
    data.extend_from_slice(&[0, 0, 0, 0, 0, 3, 0, 0, 0, 7]);
    apply(
        &mut g,
        ClientboundPlayPacket::PluginMessage { channel: "MC|TrList".to_owned(), data },
    );
    assert_eq!(g.open_container().unwrap().trades().len(), 1);
    assert_eq!(g.open_container().unwrap().trades()[0].sell.id, 264);
    // An index past the end chooses the last offer.
    let packet = g.merchant_select(9);
    assert_eq!(
        packet,
        Some(ServerboundPacket::PluginMessage {
            channel: "MC|TrSel".to_owned(),
            data: vec![0, 0, 0, 0],
        })
    );
    assert_eq!(g.open_container().unwrap().selected_trade(), 0);
}

#[test]
fn worn_armor_counts() {
    let mut g = GameState::empty_for_server();
    assert_eq!(g.armor(), 0);
    // A full set of diamond: 3 + 8 + 6 + 3.
    for (slot, id) in [(5usize, 310i16), (6, 311), (7, 312), (8, 313)] {
        g.windows.inventory[slot] = Some(item(id, 1));
    }
    assert_eq!(g.armor(), 20);
    assert_eq!(g.hotbar_items().len(), 9);
}

// ── The session ───────────────────────────────────────────────────────────

#[test]
fn mounting_follows_the_vehicle_then_detaching_clears_it() {
    let mut g = GameState::empty_for_server();
    // A vehicle entity (pig, id 1) at a known position.
    let done = apply(
        &mut g,
        ClientboundPlayPacket::SpawnMob {
            entity_id: 1,
            kind: 90,
            x: r64(10.0),
            y: r64(64.0),
            z: r64(-5.0),
            yaw: r32(0.0),
            pitch: r32(0.0),
        },
    );
    assert!(matches!(
        done.orders.as_slice(),
        [Order::Spawn { id: 1, kind: EntityKind::Mob(90), .. }]
    ));
    apply(
        &mut g,
        ClientboundPlayPacket::AttachEntity {
            entity_id: 0, // the local player
            vehicle_id: 1,
            leash: false,
        },
    );
    g.tick(false);
    // The rider snaps onto the vehicle.
    assert_eq!(g.vehicle(), Some(1));
    g.hands.sprinting = true;
    assert!(!g.ride(false), "a vehicle out of sight carries nobody");
    assert!(g.player_sprinting());
    assert!(g.ride(true));
    assert!(!g.player_sprinting());

    // Detaching (vehicle_id -1) clears the mount so physics resumes.
    apply(
        &mut g,
        ClientboundPlayPacket::AttachEntity {
            entity_id: 0,
            vehicle_id: -1,
            leash: false,
        },
    );
    assert!(g.vehicle().is_none());
}

#[test]
fn position_look_resets_velocity_and_enables_sending() {
    let mut gs = GameState::empty_for_server();
    gs.session.joined_game = true;
    // Movement is withheld until the server sends our spawn position.
    assert!(!gs.can_send_movement_packets());
    let done = apply(
        &mut gs,
        ClientboundPlayPacket::PlayerPositionLook {
            x: r64(1.0),
            y: r64(64.0),
            z: r64(2.0),
            yaw: r32(0.0),
            pitch: r32(0.0),
            flags: 0,
        },
    );
    assert!(
        done.orders.iter().any(|o| matches!(
            o,
            Order::Teleport { y, add_x: false, add_y: false, add_z: false, .. }
                if double(*y) == 64.0
        )),
        "the player goes to the absolute place, and stops there: {:?}",
        done.orders
    );
    assert!(gs.can_send_movement_packets());
    assert!(gs.take_position_confirm());
    assert!(!gs.take_position_confirm(), "confirmed once");
    // The tick after a teleport is held still.
    assert!(gs.tick(false).frozen);
    assert!(!gs.tick(false).frozen);
}

#[test]
fn relative_positions_are_marked_axis_by_axis() {
    let mut g = GameState::empty_for_server();
    let done = apply(
        &mut g,
        ClientboundPlayPacket::PlayerPositionLook {
            x: r64(1.0),
            y: r64(2.0),
            z: r64(3.0),
            yaw: r32(0.0),
            pitch: r32(0.0),
            flags: 0x05,
        },
    );
    assert!(done.orders.iter().any(|o| matches!(
        o,
        Order::Teleport { add_x: true, add_y: false, add_z: true, add_yaw: false, .. }
    )));
}

#[test]
fn abilities_packet_updates_capabilities() {
    let mut gs = GameState::empty_for_server();
    apply(
        &mut gs,
        ClientboundPlayPacket::PlayerAbilities {
            invulnerable: true,
            flying: true,
            allow_flying: true,
            creative: true,
            fly_speed: r32(0.1),
            walk_speed: r32(0.2),
        },
    );
    let caps = gs.capabilities();
    assert!(caps.invulnerable && caps.flying && caps.allow_flying && caps.creative);
    assert!((float(caps.fly_speed) - 0.1).abs() < f32::EPSILON);
    assert!((float(caps.walk_speed) - 0.2).abs() < f32::EPSILON);
    // Server-applied abilities never trigger a client echo by themselves.
    assert!(gs.take_abilities_packet().is_none());
}

#[test]
fn joining_tells_who_the_player_is() {
    let mut g = GameState::empty_for_server();
    apply(&mut g, ClientboundPlayPacket::JoinGame { entity_id: 44, game_mode: 1, dimension: -1 });
    assert_eq!(g.player_entity_id(), 44);
    assert!(g.is_creative());
    assert_eq!(g.dimension(), -1);
    assert_eq!(g.desired_music_type(false), MusicType::Nether);
}

// ── The title ─────────────────────────────────────────────────────────────

fn title(g: &mut GameState, action: TitleAction) {
    apply(g, ClientboundPlayPacket::Title { action });
}

/// The opacity of the title.
fn alpha(g: &GameState, partial: u64) -> f64 {
    let overlay = g.title_overlay(partial).unwrap();
    overlay.alpha.0 as f64 / overlay.alpha.1 as f64
}

#[test]
fn title_packet_sets_text_and_fades_out() {
    let mut gs = GameState::empty_for_server();
    title(&mut gs, TitleAction::Times { fade_in: 2, stay: 2, fade_out: 2 });
    title(&mut gs, TitleAction::Subtitle { json: r#"{"text":"Sub"}"#.to_owned() });
    assert!(
        gs.title_overlay(0).is_none(),
        "subtitle alone does not start the timer"
    );

    title(
        &mut gs,
        TitleAction::Title { json: r#"{"text":"Main","color":"gold"}"#.to_owned() },
    );
    assert!(
        gs.title_overlay(0).is_none(),
        "first fade-in frame starts fully transparent"
    );
    let overlay = gs.title_overlay(TICK).expect("title fades in during the first tick");
    assert_eq!(overlay.title, "§6Main");
    assert_eq!(overlay.subtitle, "Sub");
    assert!((alpha(&gs, TICK) - 0.5).abs() < 1.0e-6);

    gs.tick(false);
    gs.tick(false);
    assert!((alpha(&gs, 0) - 1.0).abs() < 1.0e-6);
    gs.tick(false);
    gs.tick(false);
    assert!((alpha(&gs, 0) - 1.0).abs() < 1.0e-6);
    gs.tick(false);
    assert!((alpha(&gs, 0) - 0.5).abs() < 1.0e-6);
    gs.tick(false);
    assert!(
        gs.title_overlay(0).is_none(),
        "title expires and clears itself"
    );
}

#[test]
fn title_clear_and_reset_match_vanilla() {
    let mut gs = GameState::empty_for_server();
    title(&mut gs, TitleAction::Times { fade_in: 1, stay: 1, fade_out: 1 });
    title(&mut gs, TitleAction::Title { json: r#"{"text":"A"}"#.to_owned() });
    assert!(gs.title_overlay(TICK).is_some());
    title(&mut gs, TitleAction::Clear);
    assert!(gs.title_overlay(0).is_none());

    title(&mut gs, TitleAction::Title { json: r#"{"text":"B"}"#.to_owned() });
    assert_eq!(gs.title.timer, 3, "clear keeps custom timings");
    title(&mut gs, TitleAction::Reset);
    assert!(gs.title_overlay(0).is_none());
    title(&mut gs, TitleAction::Title { json: r#"{"text":"C"}"#.to_owned() });
    assert_eq!(
        gs.title.timer, 100,
        "reset restores vanilla 10/70/20 timings"
    );
}

// ── Vitals ────────────────────────────────────────────────────────────────

fn property(key: &str, base: f64, modifiers: Vec<AttributeModifier>) -> EntityProperty {
    EntityProperty { key: key.to_owned(), base: r64(base), modifiers }
}

#[test]
fn movement_speed_attribute_applies_potions_but_skips_sprint_boost() {
    let mut gs = GameState::empty_for_server();
    gs.session.player_id = 7;
    let done = apply(
        &mut gs,
        ClientboundPlayPacket::EntityProperties {
            entity_id: 7,
            properties: vec![property(
                "generic.movementSpeed",
                0.1,
                vec![
                    // Speed I potion: op 2, +20%.
                    AttributeModifier {
                        uuid: [1; 16],
                        amount: r64(0.2),
                        operation: 2,
                    },
                    // The sprint boost must be excluded (physics models it).
                    AttributeModifier {
                        uuid: SPRINT_SPEED_BOOST_UUID,
                        amount: r64(0.3),
                        operation: 2,
                    },
                ],
            )],
        },
    );
    let speed = follow_attributes(&mut gs, &done).expect("a speed");
    assert!((speed - 0.12).abs() < 1.0e-6);

    // Attributes for other entities don't touch the player's speed.
    let done = apply(
        &mut gs,
        ClientboundPlayPacket::EntityProperties {
            entity_id: 99,
            properties: vec![property("generic.movementSpeed", 0.5, Vec::new())],
        },
    );
    assert!(follow_attributes(&mut gs, &done).is_none());
}

#[test]
fn max_health_attribute_feeds_hud_vitals() {
    let mut gs = GameState::empty_for_server();
    gs.session.player_id = 7;
    let done = apply(
        &mut gs,
        ClientboundPlayPacket::EntityProperties {
            entity_id: 7,
            properties: vec![property("generic.maxHealth", 40.0, Vec::new())],
        },
    );
    follow_attributes(&mut gs, &done);
    assert_eq!(float(gs.vitals.max_health), 40.0);
    assert_eq!(float(gs.hud_vitals().max_health), 40.0);

    // Another entity's maxHealth must not touch the local player.
    let done = apply(
        &mut gs,
        ClientboundPlayPacket::EntityProperties {
            entity_id: 99,
            properties: vec![property("generic.maxHealth", 100.0, Vec::new())],
        },
    );
    follow_attributes(&mut gs, &done);
    assert_eq!(float(gs.vitals.max_health), 40.0);
}

fn effect(g: &mut GameState, entity_id: i32, id: u8, amplifier: i8, duration: i32) {
    apply(
        g,
        ClientboundPlayPacket::EntityEffect {
            entity_id,
            effect_id: id as i8,
            amplifier,
            duration,
        },
    );
}

#[test]
fn absorption_effect_amplifier_drives_gold_hearts() {
    let mut gs = GameState::empty_for_server();
    gs.session.player_id = 7;
    // Absorption II (amplifier 1) → 4 * (1 + 1) = 8 absorption health.
    effect(&mut gs, 7, POTION_ABSORPTION, 1, 600);
    assert_eq!(gs.hud_vitals().absorption, 8);

    // Removing it clears the gold hearts.
    apply(
        &mut gs,
        ClientboundPlayPacket::RemoveEntityEffect {
            entity_id: 7,
            effect_id: POTION_ABSORPTION as i8,
        },
    );
    assert_eq!(gs.hud_vitals().absorption, 0);
}

#[test]
fn potion_effect_flags_thread_into_hud_vitals() {
    let mut gs = GameState::empty_for_server();
    gs.session.player_id = 7;
    for id in [POTION_REGENERATION, POTION_HUNGER, POTION_POISON, POTION_WITHER] {
        effect(&mut gs, 7, id, 0, 200);
    }
    let v = gs.hud_vitals();
    assert!(v.regen && v.hunger_effect && v.poison && v.wither);
    // The stored duration round-trips through the effect table.
    assert_eq!(gs.vitals.effects[&POTION_POISON].duration, 200);

    // Effects on a non-local entity are ignored.
    effect(&mut gs, 99, POTION_ABSORPTION, 4, 200);
    assert_eq!(gs.hud_vitals().absorption, 0);
}

#[test]
fn respawn_clears_effects_and_resets_max_health() {
    let mut gs = GameState::empty_for_server();
    gs.session.player_id = 7;
    let done = apply(
        &mut gs,
        ClientboundPlayPacket::EntityProperties {
            entity_id: 7,
            properties: vec![property("generic.maxHealth", 30.0, Vec::new())],
        },
    );
    follow_attributes(&mut gs, &done);
    effect(&mut gs, 7, POTION_ABSORPTION, 0, 600);
    assert_eq!(float(gs.vitals.max_health), 30.0);
    assert!(!gs.vitals.effects.is_empty());

    apply(&mut gs, ClientboundPlayPacket::Respawn { dimension: 0, game_mode: 0 });
    assert_eq!(float(gs.vitals.max_health), 20.0);
    assert!(gs.vitals.effects.is_empty());
}

#[test]
fn effects_are_listed_by_number() {
    let mut g = GameState::empty_for_server();
    effect(&mut g, 0, 20, 1, 5);
    effect(&mut g, 0, 3, 0, 7);
    assert_eq!(g.active_effects(), vec![(3, 0, 7), (20, 1, 5)]);
}

fn health(g: &mut GameState, health: f32) {
    apply(
        g,
        ClientboundPlayPacket::UpdateHealth {
            health: r32(health),
            food: 18,
            food_saturation: r32(2.0),
        },
    );
}

#[test]
fn damage_makes_the_hearts_blink_and_death_asks_for_respawn() {
    let mut g = GameState::empty_for_server();
    health(&mut g, 20.0);
    assert_eq!(g.hud_vitals().health_update_counter, 0, "the first report never blinks");
    health(&mut g, 13.5);
    assert_eq!(g.hud_vitals().health_update_counter, 20);
    assert_eq!(g.hud_vitals().last_player_health, 20);
    health(&mut g, 15.0);
    assert_eq!(g.hud_vitals().health_update_counter, 10);
    health(&mut g, 0.0);
    assert!(g.is_dead());
    assert!(!g.take_respawn_request());
    g.request_respawn();
    assert!(!g.is_dead());
    assert!(g.take_respawn_request());
    assert!(!g.take_respawn_request());
    assert_eq!(g.food(), 18);
    assert_eq!(float(g.health()), 0.0);
}

#[test]
fn experience_is_kept() {
    let mut g = GameState::empty_for_server();
    apply(&mut g, ClientboundPlayPacket::SetExperience { bar: r32(0.25), level: 30 });
    assert_eq!((float(g.xp_bar()), g.xp_level()), (0.25, 30));
}

// ── Entities ──────────────────────────────────────────────────────────────

#[test]
fn invisible_armor_stand_hides_model_but_shows_floating_text() {
    let mut g = GameState::empty_for_server();
    // An armor stand (object type 78) a few blocks from the player.
    g.session.player_id = 0;
    apply(&mut g, spawn_object(7, 78, 0));
    // Invisible (flag 0x20) + a visible custom name → floating text.
    let done = apply(
        &mut g,
        ClientboundPlayPacket::EntityMetadata {
            entity_id: 7,
            metadata: vec![
                MetadataEntry { index: 0, value: MetadataValue::Byte(0x20) },
                MetadataEntry { index: 2, value: MetadataValue::Str("Hello".to_string()) },
                MetadataEntry { index: 3, value: MetadataValue::Byte(1) },
            ],
        },
    );
    let mut stand = seen(7, EntityKind::Object(78));
    for order in &done.orders {
        match order {
            Order::Pose { id: 7, invisible, .. } => stand.invisible = *invisible,
            Order::Name { id: 7, name } => stand.custom_name = name.clone(),
            Order::NameShown { id: 7, shown } => stand.custom_name_visible = *shown,
            other => panic!("unexpected {other:?}"),
        }
    }
    assert!(stand.invisible);
    assert_eq!(stand.custom_name.as_deref(), Some("Hello"));
    assert!(stand.custom_name_visible);

    // …its floating-text plate is still emitted,
    assert_eq!(g.nametag(&stand, r64(3.0)), Plate::Own("Hello".to_owned()));
    // but the invisible stand contributes no model geometry.
    let drawn = g.build_entity_model(&vec![stand], &Vec::new());
    assert!(
        drawn.iter().all(|p| !p.body && p.armor.is_none()),
        "invisible entity must not render a model"
    );
}

#[test]
fn invisible_player_still_shows_worn_armor() {
    let mut g = GameState::empty_for_server();
    let rows = Vec::new();

    // An invisible player right next to the camera.
    apply(
        &mut g,
        ClientboundPlayPacket::SpawnPlayer {
            entity_id: 8,
            uuid: [0u8; 16],
            x: r64(0.5),
            y: r64(80.5),
            z: r64(0.5),
            yaw: r32(0.0),
            pitch: r32(0.0),
        },
    );
    let done = apply(
        &mut g,
        ClientboundPlayPacket::EntityMetadata {
            entity_id: 8,
            metadata: vec![MetadataEntry { index: 0, value: MetadataValue::Byte(0x20) }],
        },
    );
    assert!(matches!(done.orders.as_slice(), [Order::Pose { id: 8, invisible: true, .. }]));
    let invisible = |head: bool| {
        let mut e = seen(8, EntityKind::RemotePlayer);
        e.invisible = true;
        e.shimmer.head = head;
        vec![e]
    };

    // Bare invisible player: nothing renders.
    let bare = g.build_entity_model(&invisible(false), &rows);
    assert!(
        bare.iter().all(|p| !p.body && p.armor.is_none()),
        "invisible player with no armor renders nothing"
    );

    // Give it an iron helmet (slot 4, id 306): the worn armor still shows.
    apply(
        &mut g,
        ClientboundPlayPacket::EntityEquipment {
            entity_id: 8,
            slot: 4,
            item: Some(SlotItem::new(306, 1, 0)),
        },
    );
    let armored = g.build_entity_model(&invisible(false), &rows);
    assert_eq!(armored.len(), 1);
    assert!(!armored[0].body);
    assert_eq!(
        armored[0].armor.and_then(|a| a.head),
        Some(306),
        "invisible player must still show worn armor"
    );
    // The plain (unenchanted) helmet emits no glint geometry.
    assert!(armored[0].glint.is_none(), "unenchanted armor must not glint");

    // Enchant the helmet: now it glints.
    let enchanted = g.build_entity_model(&invisible(true), &rows);
    assert!(
        enchanted[0].glint.is_some_and(|s| s.head),
        "enchanted armor must emit glint geometry"
    );
}

#[test]
fn xp_orb_texture_cell_matches_vanilla_thresholds() {
    assert_eq!(xp_orb_texture_cell(0), 0);
    assert_eq!(xp_orb_texture_cell(2), 0);
    assert_eq!(xp_orb_texture_cell(3), 1);
    assert_eq!(xp_orb_texture_cell(6), 1);
    assert_eq!(xp_orb_texture_cell(7), 2);
    assert_eq!(xp_orb_texture_cell(16), 2);
    assert_eq!(xp_orb_texture_cell(17), 3);
    assert_eq!(xp_orb_texture_cell(37), 4);
    assert_eq!(xp_orb_texture_cell(73), 5);
    assert_eq!(xp_orb_texture_cell(149), 6);
    assert_eq!(xp_orb_texture_cell(307), 7);
    assert_eq!(xp_orb_texture_cell(617), 8);
    assert_eq!(xp_orb_texture_cell(1237), 9);
    assert_eq!(xp_orb_texture_cell(2477), 10);
    assert_eq!(xp_orb_texture_cell(i16::MAX), 10);
}

#[test]
fn spawn_experience_orb_tracks_entity_and_xp() {
    let mut g = GameState::empty_for_server();
    let done = apply(
        &mut g,
        ClientboundPlayPacket::SpawnExperienceOrb {
            entity_id: 7,
            x: r64(3.0),
            y: r64(64.0),
            z: r64(-2.0),
            count: 150,
        },
    );
    assert!(
        done.orders
            .iter()
            .any(|o| matches!(o, Order::Spawn { id: 7, kind: EntityKind::ExperienceOrb, .. })),
        "orb spawned"
    );
    assert_eq!(g.tables.xp.get(&7).copied(), Some(150));
    // The renderer-facing list reports one billboard with cell-6 UVs.
    let orb = seen(7, EntityKind::ExperienceOrb);
    assert_eq!(g.xp_orb(&orb), Some(6));
    // count 150 → cell 6; despawn drops the tracking.
    let done = apply(&mut g, ClientboundPlayPacket::DestroyEntities { entity_ids: vec![7] });
    assert!(done.orders.iter().any(|o| matches!(o, Order::Remove { id: 7 })));
    assert!(g.tables.xp.get(&7).is_none());
}

#[test]
fn falling_block_decodes_id_and_meta_from_data() {
    let mut g = GameState::empty_for_server();
    // data = id | meta << 12: stone-bricks (98) meta 3.
    let data = 98 | (3 << 12);
    apply(&mut g, spawn_object(7, 70, data));
    let block = g.tables.falling.get(&7).copied().expect("tracked");
    assert_eq!(block, BlockState::new(98, 3));
    let cube = g.falling_block(&seen(7, EntityKind::Object(70)));
    assert_eq!(cube, Some(BlockState::new(98, 3)));
}

#[test]
fn primed_tnt_swells_and_flashes_with_its_fuse() {
    let kind = EntityKind::Object(50); // primed TNT
    // Fresh fuse (age 0 → fuse 80): a TNT block, no swell, flash window on
    // (80 / 5 = 16, even).
    let look = primed_tnt(kind, 0, 0).expect("explosives");
    assert_eq!(look.swell, 0, "no swell early in the fuse");
    assert!(look.flash > 0, "fuse 80 is in a flash window");

    // age 5 → fuse 75 (75 / 5 = 15, odd): between flash windows, still no swell.
    let look = primed_tnt(kind, 5, 0).expect("explosives");
    assert_eq!(look.flash, 0, "fuse 75 is between flash windows");
    assert_eq!(look.swell, 0);

    // age 78 → fuse 2 (< 10): swelling toward ×1.3.
    let look = primed_tnt(kind, 78, 0).expect("explosives");
    // The host grows the block by the fourth power of the swollen share.
    let f = (look.swell as f64 / 1.0e10).clamp(0.0, 1.0);
    let scale = 1.0 + f.powi(4) * 0.3;
    assert!(
        scale > 1.0 && scale <= 1.3,
        "swells in the last 10 fuse ticks: {scale}"
    );
    assert!(primed_tnt(EntityKind::Object(70), 0, 0).is_none());
}

#[test]
fn projectile_kinds_map_to_item_sprites() {
    assert_eq!(projectile_item_id(60), None); // arrow is a 3D model, not a sprite
    assert_eq!(projectile_item_id(61), Some(332)); // snowball
    assert_eq!(projectile_item_id(65), Some(368)); // ender pearl
    // Falling block, item and armor stand are rendered elsewhere, not here.
    assert_eq!(projectile_item_id(70), None);
    assert_eq!(projectile_item_id(2), None);
    assert_eq!(projectile_item_id(78), None);

    // A spawned snowball surfaces in the projectile sprite list.
    let mut g = GameState::empty_for_server();
    let done = apply(&mut g, spawn_object(7, 61, 0));
    assert!(done
        .orders
        .iter()
        .any(|o| matches!(o, Order::Spawn { id: 7, kind: EntityKind::Object(61), .. })));
    assert_eq!(projectile(&seen(7, EntityKind::Object(61))), Some(332));
}

fn chest(block: BlockState, west: u16, east: u16) -> ChestSite {
    ChestSite { block, west, east, north: 0, south: 0 }
}

#[test]
fn adjacent_same_type_chests_render_one_large_model() {
    // A normal-chest pair adjacent along X (facing south, meta 3): the
    // canonical half is the smaller-X one.
    let draws = build_chest_models(&vec![
        chest(BlockState::new(54, 3), 0, 54),
        chest(BlockState::new(54, 3), 54, 0),
    ]);
    // One large chest that spans both cells along X; the other half is skipped.
    assert_eq!(
        draws,
        vec![ChestDraw::Large { kind: ChestKind::Normal, dx: 1, dz: 0 }, ChestDraw::Skip],
        "an adjacent same-type pair must emit one large model, not two singles"
    );

    // A lone chest of the same type (no same-id X neighbour) stays single.
    let single = build_chest_models(&vec![chest(BlockState::new(54, 3), 0, 0)]);
    assert_eq!(single, vec![ChestDraw::Single(ChestKind::Normal)]);

    // Two adjacent chests of DIFFERENT types (normal + trapped) do not pair:
    // each renders its own single model.
    let mixed = build_chest_models(&vec![
        chest(BlockState::new(54, 3), 0, 146),
        chest(BlockState::new(146, 3), 54, 0),
    ]);
    assert_eq!(
        mixed,
        vec![ChestDraw::Single(ChestKind::Normal), ChestDraw::Single(ChestKind::Trapped)],
        "different-type neighbours stay two singles"
    );
}

fn wither(health: Option<f32>, distance: f64) -> BossSight {
    BossSight {
        kind: EntityKind::Mob(64),
        health: health.map(r32),
        distance: r64(distance),
        custom_name: None,
    }
}

#[test]
fn boss_bar_reports_nearest_wither_health_fraction() {
    let mut g = GameState::empty_for_server();
    // No boss in range yet.
    assert!(boss_bar(&Vec::new()).is_none());
    // A wither (mob type 64) close by, at half its 300 max health.
    // Health metadata (index 6, float) = 150 → fraction 0.5.
    let done = apply(
        &mut g,
        ClientboundPlayPacket::EntityMetadata {
            entity_id: 7,
            metadata: vec![MetadataEntry { index: 6, value: MetadataValue::Float(r32(150.0)) }],
        },
    );
    let health = match done.orders.as_slice() {
        [Order::EntityHealth { id: 7, health }] => *health,
        other => panic!("unexpected {other:?}"),
    };
    let bar = boss_bar(&vec![wither(Some(float(health)), 5.0)]).expect("wither in range");
    assert_eq!(bar.name, "Wither");
    assert!((float(bar.health) / bar.full as f32 - 0.5).abs() < 1e-6);
    // A dead wither (0 health) drops off the bar.
    let done = apply(
        &mut g,
        ClientboundPlayPacket::EntityMetadata {
            entity_id: 7,
            metadata: vec![MetadataEntry { index: 6, value: MetadataValue::Float(r32(0.0)) }],
        },
    );
    assert!(matches!(
        done.orders.as_slice(),
        [Order::EntityHealth { id: 7, .. }, Order::Die { id: 7 }]
    ));
    assert!(boss_bar(&vec![wither(Some(0.0), 5.0)]).is_none());
}

#[test]
fn the_nearest_boss_is_shown() {
    let bar = boss_bar(&vec![
        wither(Some(300.0), 40.0),
        wither(Some(10.0), 20.0),
        wither(Some(200.0), 30.0),
    ])
    .expect("a boss");
    assert_eq!(float(bar.health), 10.0);
    assert!(boss_bar(&vec![wither(Some(300.0), 81.0)]).is_none(), "out of range");
}

// ── Sounds ────────────────────────────────────────────────────────────────

#[test]
fn note_block_action_plays_pitched_note_and_spawns_particle() {
    let mut g = GameState::empty_for_server();
    // instrument 2 (snare), note 12 → pitch 2^((12-12)/12) = 1.0.
    let done = apply(
        &mut g,
        ClientboundPlayPacket::BlockAction {
            x: 1,
            y: 65,
            z: -2,
            action_id: 2,
            action_param: 12,
            block_type: 25,
        },
    );
    assert_eq!(
        done.orders,
        vec![Order::Note { x: 1, y: 65, z: -2, instrument: 2, note: 12 }]
    );
    assert_eq!(note_event(2), "note.snare");
    // note 24 → pitch 2^(12/12) = 2.0; note 0 → 2^(-1) = 0.5.
    for (note, expected) in [(24u8, 2.0_f32), (0, 0.5), (12, 1.0)] {
        let mut g = GameState::empty_for_server();
        let done = apply(
            &mut g,
            ClientboundPlayPacket::BlockAction {
                x: 0,
                y: 0,
                z: 0,
                action_id: 0,
                action_param: note,
                block_type: 25,
            },
        );
        let played = match done.orders.as_slice() {
            [Order::Note { note, .. }] => *note,
            other => panic!("unexpected {other:?}"),
        };
        let pitch = 2.0_f32.powf((played as f32 - 12.0) / 12.0);
        assert!((pitch - expected).abs() < 1e-6, "note {note}");
    }
}

fn chest_action(g: &mut GameState, viewers: u8) -> Vec<Order> {
    apply(
        g,
        ClientboundPlayPacket::BlockAction {
            x: 0,
            y: 0,
            z: 0,
            action_id: 1,
            action_param: viewers,
            block_type: 54,
        },
    )
    .orders
}

#[test]
fn chest_block_action_opens_the_lid_and_plays_the_sound() {
    let mut g = GameState::empty_for_server();
    // A chest open (block type 54, action 1, viewers=1) arms the lid target
    // and plays random.chestopen once.
    assert_eq!(
        chest_action(&mut g, 1),
        vec![Order::ChestLid { x: 0, y: 0, z: 0, open: true }]
    );
    assert!(g.fixtures.is_open(BlockPos { x: 0, y: 0, z: 0 }));
    assert!(chest_action(&mut g, 2).is_empty(), "a second viewer is not heard");
    // Closing (viewers=0) plays the close sound and clears the target.
    assert_eq!(
        chest_action(&mut g, 0),
        vec![Order::ChestLid { x: 0, y: 0, z: 0, open: false }]
    );
    assert!(!g.fixtures.is_open(BlockPos { x: 0, y: 0, z: 0 }));
}

#[test]
fn piston_block_action_is_ignored() {
    let mut g = GameState::empty_for_server();
    // A piston extend (block type 33) carries no client sound/lid here.
    let done = apply(
        &mut g,
        ClientboundPlayPacket::BlockAction {
            x: 0,
            y: 0,
            z: 0,
            action_id: 0,
            action_param: 1,
            block_type: 33,
        },
    );
    assert!(done.orders.is_empty());
}

/// A move over stone.
fn over_stone(on_ground: bool, damage: i32, step_due: bool) -> Move {
    Move { on_ground, damage, in_water: false, below: BlockState::new(1, 0), step_due }
}

#[test]
fn footstep_plays_block_step_sound_at_the_vanilla_interval() {
    let mut steps = Steps::new();
    // Walk a bit over one tick: the accumulator is horizontal ×0.6, so ~1.7
    // blocks trips the first step (nextStepDistance starts at 1).
    let walked = 2.0_f32 * 0.6;
    let due = walked > steps.next_step_distance as f32;
    let sounds = steps.tick_local_movement_sounds(&over_stone(true, 0, due));
    assert_eq!(sounds, vec![MoveSound::Step(Material::Stone)], "one footstep expected");
    assert_eq!(fpsmaster_app::game::sounds::step_sound_for_block(1), "step.stone");
}

#[test]
fn no_footstep_while_airborne() {
    let mut steps = Steps::new();
    let sounds = steps.tick_local_movement_sounds(&over_stone(false, 0, true));
    assert!(
        sounds.iter().all(|s| !matches!(s, MoveSound::Step(_))),
        "no footstep off the ground"
    );
}

#[test]
fn fall_landing_plays_hurt_sound_past_three_blocks() {
    let mut steps = Steps::new();
    steps.prev_on_ground = false;
    // A 5-block fall: ceil(5 - 3) points of damage.
    let damage = (5.0_f32 - 3.0).ceil() as i32;
    let sounds = steps.tick_local_movement_sounds(&over_stone(true, damage, false));
    assert!(
        sounds.contains(&MoveSound::FallSmall),
        "a 5-block fall plays the small fall-hurt sound: {sounds:?}"
    );
}

#[test]
fn short_fall_is_silent() {
    let mut steps = Steps::new();
    steps.prev_on_ground = false;
    let damage = (2.0_f32 - 3.0).ceil() as i32; // below the 3-block threshold
    let sounds = steps.tick_local_movement_sounds(&over_stone(true, damage, false));
    assert!(
        !sounds.iter().any(|s| matches!(s, MoveSound::FallSmall | MoveSound::FallBig)),
        "a 2-block fall makes no fall-hurt sound"
    );
}

#[test]
fn collect_item_plays_pop_for_local_player() {
    let mut g = GameState::empty_for_server();
    g.session.player_id = 1;
    // An item entity to collect (object kind 2 = item).
    apply(&mut g, spawn_object(9, 2, 0));
    let done =
        apply(&mut g, ClientboundPlayPacket::CollectItem { collected_id: 9, collector_id: 1 });
    assert!(
        matches!(done.orders.as_slice(), [Order::Pickup { id: 9, xp: false, .. }]),
        "got {:?}",
        done.orders
    );
}

#[test]
fn collect_xp_orb_plays_orb_sound() {
    let mut g = GameState::empty_for_server();
    g.session.player_id = 1;
    apply(
        &mut g,
        ClientboundPlayPacket::SpawnExperienceOrb {
            entity_id: 8,
            x: r64(2.0),
            y: r64(65.0),
            z: r64(0.0),
            count: 5,
        },
    );
    let done =
        apply(&mut g, ClientboundPlayPacket::CollectItem { collected_id: 8, collector_id: 1 });
    assert!(
        matches!(done.orders.as_slice(), [Order::Pickup { id: 8, xp: true, .. }]),
        "got {:?}",
        done.orders
    );
}

#[test]
fn collect_by_other_player_is_silent() {
    let mut g = GameState::empty_for_server();
    g.session.player_id = 1;
    apply(&mut g, spawn_object(9, 2, 0));
    // Collector 42 is not us.
    let done =
        apply(&mut g, ClientboundPlayPacket::CollectItem { collected_id: 9, collector_id: 42 });
    assert!(done.orders.is_empty());
}

#[test]
fn ambient_cave_triggers_on_a_dark_air_pocket() {
    let mut g = GameState::empty_for_server();
    g.session.joined_game = true;
    // Every cell of the column is dark air; the player hovers at y = 40, so a
    // sampled cell is away when it is more than four blocks off.
    let mut fired = false;
    // The sampled y may not be far enough on the first roll; tick a few times.
    for _ in 0..64 {
        g.mood.countdown = 0;
        let sample = g.mood.tick_ambient_mood(true).expect("time to listen");
        let away = (sample.y as i32 - 40).abs() > 4;
        if g.mood.listen(true, 0, 0, away).is_some() {
            fired = true;
            break;
        }
    }
    assert!(fired, "a dark air pocket should eventually play ambient.cave.cave");
    // After a successful play the cooldown is rearmed into the 5–15 min band.
    assert!((6000..=18000).contains(&g.mood.countdown));
}

#[test]
fn music_ticker_starts_a_game_track_and_reschedules_on_finish() {
    let mut g = GameState::empty_for_server();
    g.session.joined_game = true;
    g.session.dimension = 0;
    // Drive the delay down to zero; the ticker should emit one Play command.
    g.music.delay_ticks = 1;
    let wanted = g.desired_music_type(false);
    assert_eq!(wanted, MusicType::Game);
    g.music.tick(wanted);
    let cmds = g.take_music_commands();
    assert!(
        matches!(cmds.as_slice(), [MusicCommand::Play(e)] if e == "music.game"),
        "expected a single Play(music.game): {cmds:?}"
    );
    // While the host reports the track playing, no new command is emitted.
    g.music.tick(wanted);
    assert!(g.take_music_commands().is_empty());
    // When the track finishes, the ticker clears it and waits out a delay.
    g.set_music_playing(false);
    g.music.tick(wanted);
    assert!(g.take_music_commands().is_empty(), "a finished track just schedules a delay");
    assert!(g.music.current.is_none());
}

#[test]
fn music_ticker_switches_track_when_type_changes() {
    let mut g = GameState::empty_for_server();
    g.session.joined_game = true;
    g.session.dimension = 0;
    g.music.delay_ticks = 1;
    g.music.tick(MusicType::Game);
    let _ = g.take_music_commands(); // consume the initial Play
    // Now the world is the nether: the ticker stops the game track.
    g.music.tick(MusicType::Nether);
    let cmds = g.take_music_commands();
    assert!(
        cmds.iter().any(|c| matches!(c, MusicCommand::Stop)),
        "a music-type change stops the current track: {cmds:?}"
    );
}

#[test]
fn minecart_spawn_attaches_a_looping_moving_sound() {
    let mut g = GameState::empty_for_server();
    g.session.joined_game = true;
    // Spawn a rideable minecart (object kind 10).
    apply(&mut g, spawn_object(20, 10, 0));
    let world = vec![(20, EntityKind::Object(10))];
    let carts = g.entity_sounds.refresh_entity_sound_targets(&world);
    assert_eq!(carts, vec![20], "a minecart gets a looping minecart.base emitter");
    let sound = g.entity_sounds.attach_entity_sound(20).expect("attached");
    // A second refresh does not double-attach.
    assert!(
        g.entity_sounds.refresh_entity_sound_targets(&world).is_empty(),
        "the minecart sound is attached only once"
    );
    assert!(g.entity_sounds.attach_entity_sound(20).is_none());
    // Destroying the cart stops its emitter.
    let done = apply(&mut g, ClientboundPlayPacket::DestroyEntities { entity_ids: vec![20] });
    assert!(
        done.orders.contains(&Order::StopSound { sound }),
        "destroying the cart stops the emitter: {:?}",
        done.orders
    );
}

#[test]
fn a_sound_stops_once_however_often_its_entity_goes() {
    let mut g = GameState::empty_for_server();
    let a = g.entity_sounds.attach_entity_sound(3).expect("attached");
    let b = g.entity_sounds.attach_entity_sound(4).expect("attached");
    let gone = ClientboundPlayPacket::DestroyEntities { entity_ids: vec![4, 9, 3, 4] };
    let done = apply(&mut g, gone);
    // All are removed, then their sounds stop in the order of the entities.
    let expected = vec![
        Order::Remove { id: 4 },
        Order::Remove { id: 9 },
        Order::Remove { id: 3 },
        Order::Remove { id: 4 },
        Order::StopSound { sound: b },
        Order::StopSound { sound: a },
    ];
    assert_eq!(done.orders, expected);
}

#[test]
fn carts_that_left_the_world_fall_silent() {
    let mut g = GameState::empty_for_server();
    g.entity_sounds.attach_entity_sound(3);
    g.entity_sounds.attach_entity_sound(4);
    assert_eq!(g.entity_sounds.sync_entity_sounds(&vec![4]), vec![3]);
}

// ── What a frame draws beside the models ──────────────────────────────────

#[test]
fn moving_things_are_listed_in_their_order() {
    let mut g = GameState::empty_for_server();
    g.session.player_id = 0;
    // A dropped stack, a falling block of sand and an orb worth 7.
    apply(&mut g, spawn_object(1, 2, 1));
    apply(
        &mut g,
        ClientboundPlayPacket::EntityMetadata {
            entity_id: 1,
            metadata: vec![MetadataEntry {
                index: 10,
                value: MetadataValue::Slot(Some(item(264, 3))),
            }],
        },
    );
    apply(&mut g, spawn_object(2, 70, 12));
    apply(
        &mut g,
        ClientboundPlayPacket::SpawnExperienceOrb {
            entity_id: 3,
            x: r64(0.0),
            y: r64(0.0),
            z: r64(0.0),
            count: 7,
        },
    );
    let entities = vec![
        seen(9, EntityKind::Object(2)),
        seen(1, EntityKind::Object(2)),
        seen(2, EntityKind::Object(70)),
        seen(3, EntityKind::ExperienceOrb),
        seen(4, EntityKind::Object(61)),
        seen(5, EntityKind::Object(50)),
    ];
    // The stack of the first is not known.
    assert_eq!(g.dropped_items(&entities), vec![(1, item(264, 3))]);
    assert_eq!(g.falling_block_cubes(&entities), vec![(2, BlockState { id: 12, meta: 0 })]);
    assert_eq!(g.xp_orbs(&entities), vec![(3, 2)]);
    assert_eq!(g.projectiles(&entities), vec![(4, item(332, 1))]);
    let primed = g.primed_tnt_cubes(&entities, &vec![80; 6], 0);
    assert_eq!(primed.len(), 1);
    assert_eq!((primed[0].0, primed[0].1.swell), (5, 9_000_000_000));
    assert_eq!(g.player_held_items(&entities), Vec::new());
}

#[test]
fn plates_hang_over_what_is_named_and_near() {
    let mut g = GameState::empty_for_server();
    g.session.player_id = 0;
    let mut stand = seen(7, EntityKind::Object(78));
    stand.custom_name = Some("Hello".to_owned());
    stand.custom_name_visible = true;
    let mut far = seen(8, EntityKind::Object(78));
    far.custom_name = Some("Far".to_owned());
    far.custom_name_visible = true;
    let entities = vec![seen(0, EntityKind::RemotePlayer), far, stand];
    assert_eq!(
        g.player_nametags(&entities, &vec![r64(0.0), r64(64.5), r64(64.0)]),
        vec![(2, Plate::Own("Hello".to_owned()))],
    );
}

#[test]
fn random_numbers_stay_in_their_range() {
    let mut music = MusicTicker::new();
    for _ in 0..200 {
        assert!((-5..=5).contains(&music.rand_range(-5, 5)));
        assert!((i32::MIN..0).contains(&music.rand_range(i32::MIN, -3)));
    }
    // An empty range gives its start.
    assert_eq!(music.rand_range(7, 3), 7);
    assert_eq!(music.rand_range(7, 7), 7);
}

#[test]
fn cave_sounds_are_five_minutes_apart() {
    for (lcg, wait) in [(0, 6000), (11_999 << 8, 17_999), (12_000 << 8, 6000), (0xffff_ffff, 7215)] {
        let mut mood = Mood { lcg, countdown: 0 };
        assert!(mood.listen(true, 0, 0, true).is_some());
        assert_eq!(mood.countdown, wait);
    }
}
