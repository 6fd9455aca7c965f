//! Windows: their layouts, villager offers and clicks in them.

use fpsmaster_app::container::state::{Container, WindowKind};
use fpsmaster_app::container::trades::{parse_trade_list, read_slot};
use fpsmaster_app::item::SlotItem;

/// Append a slot stack in the vanilla wire form (id i16, count u8, damage
/// i16, empty NBT) — `None` is the `-1` empty marker.
fn push_slot(buf: &mut Vec<u8>, item: Option<(i16, u8, i16)>) {
    match item {
        None => buf.extend_from_slice(&(-1i16).to_be_bytes()),
        Some((id, count, damage)) => {
            buf.extend_from_slice(&id.to_be_bytes());
            buf.push(count);
            buf.extend_from_slice(&damage.to_be_bytes());
            buf.push(0); // NBT absent
        }
    }
}

/// `MC|TrList` parses in the vanilla field order: buy, sell, hasSecond,
/// [buy2], disabled, uses, maxUses — with the window id and count up front.
#[test]
fn parses_a_trade_list_payload() {
    let mut buf = Vec::new();
    buf.extend_from_slice(&7i32.to_be_bytes()); // window id
    buf.push(2); // two offers
    // Offer 0: 1 emerald -> 1 diamond, with a second cost, enabled.
    push_slot(&mut buf, Some((388, 1, 0)));
    push_slot(&mut buf, Some((264, 1, 0)));
    buf.push(1); // has second item
    push_slot(&mut buf, Some((1, 16, 0)));
    buf.push(0); // not disabled
    buf.extend_from_slice(&3i32.to_be_bytes()); // uses
    buf.extend_from_slice(&7i32.to_be_bytes()); // max uses
    // Offer 1: 2 wheat -> 1 emerald, no second cost, disabled.
    push_slot(&mut buf, Some((296, 2, 0)));
    push_slot(&mut buf, Some((388, 1, 0)));
    buf.push(0); // no second item
    buf.push(1); // disabled
    buf.extend_from_slice(&7i32.to_be_bytes());
    buf.extend_from_slice(&7i32.to_be_bytes());

    let (window_id, trades) = parse_trade_list(&buf).expect("parse");
    assert_eq!(window_id, 7);
    assert_eq!(trades.len(), 2);
    assert_eq!(trades[0].buy.id, 388);
    assert_eq!(trades[0].sell.id, 264);
    assert_eq!(trades[0].buy_secondary.as_ref().unwrap().id, 1);
    assert!(!trades[0].disabled);
    assert_eq!(trades[1].buy.id, 296);
    assert_eq!(trades[1].buy.count, 2);
    assert!(trades[1].buy_secondary.is_none());
    assert!(trades[1].disabled);
}

/// The OpenWindow `inventory_type` string maps to the right kind, and chest
/// rows derive from the container slot count.
#[test]
fn window_type_strings_map_to_kinds() {
    let cases: &[(&str, usize, WindowKind)] = &[
        ("minecraft:crafting_table", 10, WindowKind::Crafting),
        ("minecraft:furnace", 3, WindowKind::Furnace),
        ("minecraft:chest", 27, WindowKind::Chest(3)),
        ("minecraft:chest", 54, WindowKind::Chest(6)),
        ("minecraft:dispenser", 9, WindowKind::Dispenser),
        ("minecraft:dropper", 9, WindowKind::Dispenser),
        ("minecraft:hopper", 5, WindowKind::Hopper),
        ("minecraft:brewing_stand", 4, WindowKind::Brewing),
        ("minecraft:anvil", 3, WindowKind::Anvil),
        ("minecraft:enchanting_table", 2, WindowKind::Enchant),
        ("minecraft:beacon", 1, WindowKind::Beacon),
        ("minecraft:villager", 3, WindowKind::Villager),
        // Unknown types fall back to a chest grid sized from the slot count.
        ("minecraft:unknown_thing", 9, WindowKind::Chest(1)),
    ];
    for &(ty, slots, expected) in cases {
        assert_eq!(WindowKind::from_type(ty, slots), expected, "type {ty}");
    }
}

/// Each window lays out its own container slots plus the shared 36
/// player-inventory slots, with the vanilla container slot count.
#[test]
fn window_layouts_have_container_plus_player_slots() {
    // (type, container_size, expected container slot count, x_size, y_size).
    let cases: &[(&str, usize, usize, i32, i32)] = &[
        ("minecraft:crafting_table", 10, 10, 176, 166), // 3×3 grid + result
        ("minecraft:furnace", 3, 3, 176, 166),          // input/fuel/result
        ("minecraft:chest", 27, 27, 176, 168),          // 3 rows
        ("minecraft:chest", 54, 54, 176, 222),          // 6 rows
        ("minecraft:dispenser", 9, 9, 176, 166),        // 3×3
        ("minecraft:hopper", 5, 5, 176, 133),           // 1×5
        ("minecraft:brewing_stand", 4, 4, 176, 166),    // 3 bottles + ingredient
        ("minecraft:anvil", 3, 3, 176, 166),            // 2 inputs + output
        ("minecraft:enchanting_table", 2, 2, 176, 166), // item + lapis
        ("minecraft:beacon", 1, 1, 230, 219),           // payment slot
        ("minecraft:villager", 3, 3, 176, 166),         // buy/buy/sell
    ];
    for &(ty, size, want_container, want_x, want_y) in cases {
        let c = Container::open(1, ty, String::new(), size);
        let container_slots = c.slots().len() - 36; // 36 = main 27 + hotbar 9
        assert_eq!(container_slots, want_container, "container slots for {ty}");
        assert_eq!(c.x_size, want_x, "x_size for {ty}");
        assert_eq!(c.y_size, want_y, "y_size for {ty}");
        // The last 9 slots are the hotbar, the 27 before them the main inv.
        assert_eq!(c.slots().len(), want_container + 36, "total slots for {ty}");
    }
}

#[test]
fn a_cut_off_trade_list_is_refused() {
    let mut buf = Vec::new();
    buf.extend_from_slice(&7i32.to_be_bytes());
    buf.push(1);
    push_slot(&mut buf, Some((388, 1, 0)));
    push_slot(&mut buf, Some((264, 1, 0)));
    buf.push(0);
    buf.push(0);
    buf.extend_from_slice(&3i32.to_be_bytes());
    assert!(parse_trade_list(&buf).is_none());
    buf.extend_from_slice(&7i32.to_be_bytes());
    let (_, trades) = parse_trade_list(&buf).expect("complete now");
    assert_eq!(trades[0].sell.id, 264);
    assert!(parse_trade_list(&[]).is_none());
}

#[test]
fn an_empty_slot_takes_two_bytes() {
    let mut buf = Vec::new();
    push_slot(&mut buf, None);
    let (item, end) = read_slot(&buf, 0).expect("read");
    assert!(item.is_none());
    assert_eq!(end, 2);
}

#[test]
fn a_slot_keeps_its_tag() {
    // An unnamed compound holding a short.
    let tag = [10u8, 0, 0, 2, 0, 1, b'd', 0, 5, 0];
    let mut buf = vec![1u8, 20, 3, 0, 0];
    buf.extend_from_slice(&tag);
    let (item, end) = read_slot(&buf, 0).expect("read");
    let item = item.expect("a stack");
    assert_eq!((item.id, item.count, item.damage), (276, 3, 0));
    assert_eq!(item.nbt.as_deref(), Some(&tag[..]));
    assert_eq!(end, buf.len());
}

#[test]
fn a_chest_has_at_most_six_rows_and_at_least_one() {
    assert_eq!(WindowKind::from_type("minecraft:chest", 0), WindowKind::Chest(1));
    assert_eq!(WindowKind::from_type("minecraft:container", 18), WindowKind::Chest(2));
}

/// A chest with a stack in its first place and a player with nothing.
fn chest() -> (Container, Vec<Option<SlotItem>>) {
    let mut window = Container::open(3, "minecraft:chest", String::new(), 27);
    let mut player: Vec<Option<SlotItem>> = (0..45).map(|_| None).collect();
    window.apply_set_slot(0, Some(SlotItem::new(1, 40, 0)), &mut player);
    (window, player)
}

#[test]
fn a_double_click_gathers_from_everywhere() {
    let (mut window, mut player) = chest();
    player[9] = Some(SlotItem::new(1, 30, 0));
    let mut cursor = Some(SlotItem::new(1, 10, 0));
    window.window_click(5, 0, 6, &mut player, &mut cursor, false);
    assert_eq!(cursor, Some(SlotItem::new(1, 64, 0)));
    // Nothing was lost: 40 + 30 + 10.
    let left: u32 = window.slot_item(0, &player).map_or(0, |i| i.count as u32)
        + player[9].as_ref().map_or(0, |i| i.count as u32);
    assert_eq!(left, 16);
}

#[test]
fn a_middle_click_clones_in_creative_only() {
    let (mut window, mut player) = chest();
    let mut cursor = None;
    window.window_click(0, 2, 3, &mut player, &mut cursor, false);
    assert_eq!(cursor, None);
    window.window_click(0, 2, 3, &mut player, &mut cursor, true);
    assert_eq!(cursor, Some(SlotItem::new(1, 64, 0)));
}

#[test]
fn no_click_leaves_an_empty_or_overfull_stack() {
    let sane = |item: &Option<SlotItem>| {
        let most = |i: &SlotItem| fpsmaster_app::item::max_stack(i) as i32;
        item.as_ref().map_or(true, |i| i.count as i32 >= 1 && i.count as i32 <= most(i))
    };
    for mode in 0..=6 {
        for button in [0, 1, 2, 4, 5, 6, 8] {
            for slot in [-999, 0, 1, 27, 54, 62, 63] {
                let (mut window, mut player) = chest();
                player[9] = Some(SlotItem::new(1, 63, 0));
                player[36] = Some(SlotItem::new(276, 1, 0));
                let mut cursor = Some(SlotItem::new(1, 3, 0));
                for repeat in [slot, 0, slot] {
                    window.window_click(repeat, button, mode, &mut player, &mut cursor, true);
                    assert!(player.iter().all(sane), "{mode} {button} {slot}");
                    assert!(window.container_inv.iter().all(sane), "{mode} {button} {slot}");
                    assert!(sane(&cursor), "{mode} {button} {slot}");
                }
            }
        }
    }
}

#[test]
fn actions_are_numbered_one_after_another() {
    let (mut window, mut player) = chest();
    let mut cursor = None;
    let first = window.action;
    window.window_click(0, 0, 0, &mut player, &mut cursor, false);
    window.window_click(1, 0, 0, &mut player, &mut cursor, false);
    assert_eq!(window.action, first + 2);
    assert_eq!(window.slot_item(1, &player), Some(SlotItem::new(1, 40, 0)));
}

#[test]
fn armor_and_tools_do_not_stack() {
    assert_eq!(fpsmaster_app::item::max_stack(&SlotItem::new(276, 1, 0)), 1);
    assert_eq!(fpsmaster_app::item::max_stack(&SlotItem::new(1, 1, 0)), 64);
}
