//! What extensions see of the game, and the packets they build.

use fpsmaster_app::chat::lang::Language;
use fpsmaster_app::clientbound::{BlockChangeRecord, ClientboundPlayPacket};
use fpsmaster_app::container::state::WindowKind;
use fpsmaster_app::ext_bridge::{
    build_to_serverbound, clientbound_type, clientbound_view, derive_events,
    digging_status_from_u8, entity_kind_view, render_shape_name, serverbound_type,
    serverbound_view, window_kind_name, EntityKindView, ExtEvent, GameViews, PacketBuild,
    PacketType, PacketView, RenderShape,
};
use fpsmaster_app::game::dispatch::EntityKind;
use fpsmaster_app::game::drawing::{SeenEntity, Shimmer};
use fpsmaster_app::game::fingerprint::{Lid, ViewKey};
use fpsmaster_app::game::hand::Equipped;
use fpsmaster_app::game::input::{InputState, Key};
use fpsmaster_app::game::rules::BlockState;
use fpsmaster_app::game::state::GameState;
use fpsmaster_app::game::vitals::ActiveEffect;
use fpsmaster_app::item::SlotItem;
use fpsmaster_app::packets::{DiggingStatus, Real32, Real64, ServerboundPacket};

fn no_language() -> Language {
    Language { entries: Vec::new() }
}

fn r64(x: f64) -> Real64 {
    Real64 { bits: x.to_bits() }
}

#[test]
fn packets_are_seen_by_type_and_content() {
    let lang = no_language();
    let chat = ClientboundPlayPacket::ChatMessage {
        json: r#"{"text":"hi","color":"red"}"#.to_owned(),
        position: 1,
    };
    assert_eq!(clientbound_type(&chat), PacketType::ChatMessage);
    assert_eq!(
        clientbound_view(&chat, &lang),
        PacketView::Chat {
            text: "§chi".to_owned(),
            position: 1,
            json: r#"{"text":"hi","color":"red"}"#.to_owned(),
        }
    );
    let other = ClientboundPlayPacket::Unknown { packet_id: 0x3f };
    assert_eq!(clientbound_type(&other), PacketType::ClientboundOther);
    assert!(matches!(
        clientbound_view(&other, &lang),
        PacketView::Other { ty: PacketType::ClientboundOther, .. }
    ));
}

#[test]
fn events_are_derived_from_packets() {
    let lang = no_language();
    let changes = ClientboundPlayPacket::MultiBlockChange {
        chunk_x: -1,
        chunk_z: 2,
        changes: vec![
            BlockChangeRecord { x: 1, y: 2, z: 3, id: 4, meta: 5 },
            BlockChangeRecord { x: 0, y: 0, z: 0, id: 0, meta: 0 },
        ],
    };
    assert_eq!(
        derive_events(&changes, &lang),
        vec![
            ExtEvent::BlockChange { x: -15, y: 2, z: 35, id: 4, meta: 5 },
            ExtEvent::BlockChange { x: -16, y: 0, z: 32, id: 0, meta: 0 },
        ]
    );
    let gone = ClientboundPlayPacket::DestroyEntities { entity_ids: vec![3, 9] };
    assert_eq!(
        derive_events(&gone, &lang),
        vec![ExtEvent::EntityRemove { id: 3 }, ExtEvent::EntityRemove { id: 9 }]
    );
    assert!(derive_events(&ClientboundPlayPacket::KeepAlive { id: 1 }, &lang).is_empty());
}

#[test]
fn built_packets_are_seen_as_built() {
    let built = build_to_serverbound(PacketBuild::PlayerDigging {
        status: 2,
        x: 1,
        y: 2,
        z: 3,
        face: 4,
    });
    assert_eq!(
        built,
        ServerboundPacket::PlayerDigging {
            status: DiggingStatus::FinishDestroy,
            x: 1,
            y: 2,
            z: 3,
            face: 4,
        }
    );
    assert_eq!(serverbound_type(&built), PacketType::SbPlayerDigging);
    assert_eq!(
        serverbound_view(&built),
        PacketView::OutPlayerDigging { status: 2, x: 1, y: 2, z: 3, face: 4 }
    );
    let chat = build_to_serverbound(PacketBuild::Chat("hello".to_owned()));
    assert_eq!(serverbound_view(&chat), PacketView::OutChat { message: "hello".to_owned() });
    assert_eq!(serverbound_type(&build_to_serverbound(PacketBuild::SwingArm)), PacketType::SbAnimation);
}

#[test]
fn unknown_digging_numbers_start_a_dig() {
    assert_eq!(digging_status_from_u8(0), DiggingStatus::StartDestroy);
    assert_eq!(digging_status_from_u8(6), DiggingStatus::StartDestroy);
    assert_eq!(digging_status_from_u8(5), DiggingStatus::ReleaseUseItem);
}

#[test]
fn names_are_fixed() {
    assert_eq!(render_shape_name(RenderShape::Hidden), "none");
    assert_eq!(render_shape_name(RenderShape::PistonHead), "piston_head");
    assert_eq!(window_kind_name(&WindowKind::Player), "player");
    assert_eq!(window_kind_name(&WindowKind::Chest(3)), "chest");
    assert_eq!(entity_kind_view(EntityKind::LocalPlayer), EntityKindView::Player);
    assert_eq!(entity_kind_view(EntityKind::Mob(54)), EntityKindView::Mob(54));
}

#[test]
fn extensions_read_the_game() {
    let mut g = GameState::empty_for_server();
    g.windows.inventory[36] = Some(SlotItem::new(276, 1, 7));
    g.vitals.effects.insert(9, ActiveEffect { amplifier: 1, duration: 40 });
    {
        let views = GameViews(&g);
        assert_eq!(views.held_item().map(|i| (i.id, i.count, i.damage)), Some((276, 1, 7)));
        assert_eq!(views.inventory().len(), 45);
        assert_eq!(views.effects().len(), 1);
        assert_eq!(views.effects()[0].id, 9);
        assert_eq!(views.world_time(), 6000);
        assert_eq!(views.dimension(), 0);
        assert_eq!(views.selected_slot(), 0);
        assert!(views.open_container().is_none());
        assert!(!views.connected());
        assert_eq!(views.entities(&vec![0, 5, 6]), vec![5, 6]);
    }
    g.open_player_inventory();
    let info = GameViews(&g).open_container().expect("open");
    assert_eq!((info.window_id, info.kind.as_str(), info.size), (0, "player", 45));
}

#[test]
fn keys_move_and_sprint_toggles() {
    let mut input = InputState::default();
    input.handle_key(Key::Forward, true);
    input.handle_key(Key::Left, true);
    assert_eq!(input.player_input(), (1, 1));
    input.handle_key(Key::Back, true);
    assert_eq!(input.player_input(), (0, 1));
    input.handle_key(Key::Sprint, true);
    input.handle_key(Key::Sprint, false);
    assert!(input.sprint);
    input.handle_key(Key::Sprint, true);
    assert!(!input.sprint);
    input.release_all();
    assert_eq!(input.player_input(), (0, 0));
}

#[test]
fn a_new_item_is_lowered_and_raised() {
    let mut hand = Equipped::new();
    let sword = Some(SlotItem::new(276, 1, 0));
    let mut lowest = 10u8;
    for _ in 0..10 {
        hand.update_equipped_item(&sword, 0);
        lowest = lowest.min(hand.progress);
    }
    assert!(lowest < 10);
    assert_eq!(hand.progress, 10);
    assert_eq!(hand.item, sword);
}

fn seen(id: i32, far: bool) -> SeenEntity {
    SeenEntity {
        id,
        kind: EntityKind::Mob(90),
        far,
        out_of_view: false,
        invisible: false,
        sneaking: false,
        using_item: false,
        custom_name: None,
        custom_name_visible: false,
        hurt_time: 0,
        death_time: 0,
        shimmer: Shimmer { feet: false, legs: false, chest: false, head: false },
        pose: [id as u64; 9],
        death_roll: 0,
    }
}

#[test]
fn the_picture_is_keyed_by_what_is_seen() {
    let g = GameState::empty_for_server();
    let view = ViewKey {
        camera: [1; 5],
        sun: 2,
        brightness: 3,
        hud_visible: true,
        hand: [0; 4],
        use_ticks: 0,
        time: 0,
    };
    let rows = Vec::new();
    let lid = |x: i32| Lid { x, y: 0, z: 0, angle: 5 };
    let key = |entities: Vec<SeenEntity>, lids: Vec<Lid>| {
        g.entity_render_fingerprint(&view, &None, &entities, &rows, &lids)
    };
    let one = key(vec![seen(1, false)], Vec::new());
    assert_eq!(one, key(vec![seen(1, false)], Vec::new()));
    assert_eq!(one, key(vec![seen(1, false), seen(2, true)], Vec::new()), "far ones do not count");
    assert!(one != key(vec![seen(2, false)], Vec::new()));
    // The order of chests is immaterial, their angle is not.
    assert_eq!(
        key(Vec::new(), vec![lid(1), lid(2)]),
        key(Vec::new(), vec![lid(2), lid(1)])
    );
    assert!(key(Vec::new(), vec![lid(1)]) != key(Vec::new(), Vec::new()));
}

#[test]
fn the_screen_is_tinted_by_what_the_eye_is_in() {
    let mut g = GameState::empty_for_server();
    let water = BlockState::new(9, 0);
    assert_eq!(
        g.screen_overlay(water),
        fpsmaster_app::game::actions::ScreenOverlay::Water
    );
    g.session.on_fire = true;
    assert_eq!(
        g.screen_overlay(BlockState::new(0, 0)),
        fpsmaster_app::game::actions::ScreenOverlay::Fire
    );
}

#[test]
fn positions_are_passed_on_bit_for_bit() {
    let built = build_to_serverbound(PacketBuild::PlayerPosition {
        x: r64(0.1),
        y: r64(-2.5),
        z: r64(1.0e300),
        on_ground: true,
    });
    assert_eq!(
        serverbound_view(&built),
        PacketView::OutPlayerPosition {
            x: r64(0.1),
            y: r64(-2.5),
            z: r64(1.0e300),
            on_ground: true,
        }
    );
    assert_eq!(Real32 { bits: 2.5f32.to_bits() }.ceil(), 3);
    assert_eq!(Real32 { bits: (-2.5f32).to_bits() }.ceil(), -2);
    assert!(Real32 { bits: f32::NAN.to_bits() }.is_nan());
    assert!(Real32 { bits: (-0.0f32).to_bits() }.not_positive());
}

#[test]
fn changes_at_the_last_column_are_seen() {
    let changes = ClientboundPlayPacket::MultiBlockChange {
        chunk_x: 0x7ff_ffff,
        chunk_z: 0,
        changes: vec![BlockChangeRecord { x: 15, y: 3, z: 2, id: 1, meta: 0 }],
    };
    let events = derive_events(&changes, &no_language());
    assert_eq!(
        events,
        vec![ExtEvent::BlockChange { x: i32::MAX, y: 3, z: 2, id: 1, meta: 0 }]
    );
}
