//! The screens: where their parts are and what clicks and keys do.

use fpsmaster_app::chat::component::{ClickAction, ClickEvent};
use fpsmaster_app::chat::lang::Language;
use fpsmaster_app::chat::state::ChatState;
use fpsmaster_app::container::state::Container;
use fpsmaster_app::container::trades::MerchantRecipe;
use fpsmaster_app::game::windows::Windows;
use fpsmaster_app::game::worldgen::DemoKind;
use fpsmaster_app::gui::chat_screen::GuiChat;
use fpsmaster_app::gui::controls::{Binding, GuiControls};
use fpsmaster_app::gui::edit_server::{GuiDirectConnect, GuiEditServer, ServerEntry};
use fpsmaster_app::gui::inventory::{
    amplifier_suffix, chest_top, effect_panel_shown, effect_step, furnace_progress, hotbar_digit,
    perform, potion_info, preview_layout, ticks_to_elapsed, window_origin, GuiContainer,
    WindowInput, EFFECT_PANEL_SHIFT, OUTSIDE, PREVIEW_SCALE,
};
use fpsmaster_app::gui::marks::{Ink, Mark, Shape, TextAt};
use fpsmaster_app::gui::menus::{pick_splash, GuiDemoSelect, GuiIngameMenu, GuiMainMenu};
use fpsmaster_app::gui::merchant::{
    button_at, button_sprite, offer_part_at, OfferPart, TradeButton,
};
use fpsmaster_app::gui::multiplayer::{
    ping_bar_cell, ping_tooltip, status_line, GuiMultiplayer, PingInfo, PingOutcome,
};
use fpsmaster_app::gui::shaders::{on_off, GuiShaders, ShaderSettings};
use fpsmaster_app::gui::sound_options::{slider_label, GuiSoundOptions, Slider};
use fpsmaster_app::gui::widgets::{
    button_pressed, GuiAction, GuiButton, GuiKey, Screen, ScreenKind, Toggle, UiRect,
};
use fpsmaster_app::item::SlotItem;
use fpsmaster_app::packets::ServerboundPacket;

const SCREEN: Screen = Screen { width: 1920, height: 1080, scale: 3 };

fn english() -> Language {
    Language {
        entries: vec![
            ("options.on".to_owned(), "ON".to_owned()),
            ("options.off".to_owned(), "OFF".to_owned()),
        ],
    }
}

fn middle(b: &GuiButton) -> (i32, i32) {
    (b.rect.x + b.rect.width / 2, b.rect.y + b.rect.height / 2)
}

fn item(id: i16, count: u8) -> SlotItem {
    SlotItem::new(id, count, 0)
}

// ── Windows ───────────────────────────────────────────────────────────────

#[test]
fn the_effect_panel_shifts_the_window_and_the_preview_together() {
    // The preview is projected from `window_origin`, so both must see the
    // same 60-GUI-px shift; when they disagreed the biped drew outside the
    // window (and over the effect panel) whenever a potion was active.
    let player = Container::player();
    let scale = SCREEN.scale;
    let centred = window_origin(&SCREEN, &player, false);
    let shifted = window_origin(&SCREEN, &player, true);
    assert_eq!(shifted.0 - centred.0, EFFECT_PANEL_SHIFT * scale);
    assert_eq!(shifted.1, centred.1, "the shift is horizontal only");

    // The preview panel and feet anchor ride the shifted origin.
    let a = preview_layout(centred, scale);
    let b = preview_layout(shifted, scale);
    assert_eq!(b.x - a.x, (EFFECT_PANEL_SHIFT * scale) as u32);
    assert_eq!(b.feet_x - a.feet_x, EFFECT_PANEL_SHIFT * scale);
}

#[test]
fn only_the_player_window_makes_room_for_the_effect_panel() {
    // Server containers (chest here) never draw the panel, so they stay
    // centred even with effects running.
    let chest = Container::open(1, "minecraft:chest", "Chest".into(), 27);
    assert!(!effect_panel_shown(&chest, true));
    assert_eq!(
        window_origin(&SCREEN, &chest, true),
        window_origin(&SCREEN, &chest, false),
    );
    assert!(effect_panel_shown(&Container::player(), true));
    assert!(!effect_panel_shown(&Container::player(), false));
}

#[test]
fn worn_equipment_still_clears_the_preview_panel() {
    // The preview is scissored to the panel box, so a layer taller than the
    // bare biped gets clipped rather than overflowing. The tallest is a worn
    // skull: `LayerCustomHead` grows the 8px head 1.1875× about the neck
    // pivot at model y 24, reaching 33.5 against the biped's 32.
    const WORN_HEAD_TOP_PX: f32 = 24.0 + 1.1875 * 8.0;
    for scale in 1..=4 {
        let p = preview_layout((0, 0), scale);
        let top = p.feet_y as f32 - (WORN_HEAD_TOP_PX / 16.0) * p.pixels_per_block as f32;
        assert!(
            top >= p.y as f32,
            "scale {scale}: a worn head reaches y={top}, above the panel top {}",
            p.y,
        );
    }
}

#[test]
fn panel_layout_offsets_from_the_window_origin() {
    let p = preview_layout((100, 50), 2);
    // Panel box (26,8)->(75,78) GUI px, ×2 scale, offset by the origin.
    assert_eq!(
        [p.x, p.y, p.width, p.height],
        [100 + 26 * 2, 50 + 8 * 2, (75 - 26) * 2, (78 - 8) * 2]
    );
    // Feet anchor at (51,75) GUI px ×2.
    assert_eq!([p.feet_x, p.feet_y], [100 + 51 * 2, 50 + 75 * 2]);
    assert_eq!(p.pixels_per_block, PREVIEW_SCALE * 2);
}

/// The player's inventory on the screen, with a stack in its first place.
fn inventory_screen() -> (GuiContainer, Windows) {
    let mut windows = Windows::new();
    windows.open_player_inventory();
    windows.inventory[9] = Some(item(1, 8));
    let mut screen = GuiContainer::new();
    screen.layout(&SCREEN, windows.open_container.as_ref().unwrap(), false);
    (screen, windows)
}

/// A pixel in the middle of a slot.
fn slot_pixel(screen: &GuiContainer, windows: &Windows, slot: usize) -> (i32, i32) {
    let s = windows.open_container.as_ref().unwrap().slots()[slot];
    (
        screen.px + (s.x as i32 + 8) * screen.scale,
        screen.py + (s.y as i32 + 8) * screen.scale,
    )
}

#[test]
fn a_click_on_a_slot_picks_its_stack_up() {
    let (mut screen, mut windows) = inventory_screen();
    let (x, y) = slot_pixel(&screen, &windows, 9);
    assert_eq!(screen.slot_at(x, y, windows.open_container.as_ref().unwrap()), Some(9));
    let input = screen.mouse_clicked(x, y, false, false, 1000, &windows);
    assert_eq!(input, WindowInput::Click { slot: 9, button: 0, mode: 0 });
    let packets = perform(&mut windows, input, false);
    assert_eq!(packets.len(), 1);
    assert_eq!(windows.cursor_item, Some(item(1, 8)));
    // With something carried a click begins to paint.
    let (x, y) = slot_pixel(&screen, &windows, 10);
    let input = screen.mouse_clicked(x, y, false, false, 9000, &windows);
    assert_eq!(input, WindowInput::BeginDrag { button: 0, slot: Some(10) });
    perform(&mut windows, input, false);
    let (x2, y2) = slot_pixel(&screen, &windows, 11);
    let input = screen.mouse_dragged(x2, y2, &windows);
    assert_eq!(input, WindowInput::PaintDrag(11));
    perform(&mut windows, input, false);
    let input = screen.mouse_released(x2, y2, false, &windows);
    assert_eq!(input, WindowInput::CommitDrag);
    assert_eq!(perform(&mut windows, input, false).len(), 4);
    assert_eq!(windows.inventory[10], Some(item(1, 4)));
    assert_eq!(windows.inventory[11], Some(item(1, 4)));
}

#[test]
fn two_quick_clicks_are_a_double_click() {
    let mut screen = GuiContainer::new();
    assert!(!screen.register_double_click(Some(4), 100));
    assert!(screen.register_double_click(Some(4), 200));
    assert!(!screen.register_double_click(Some(4), 5000));
    assert!(!screen.register_double_click(Some(5), 5100));
}

#[test]
fn outside_and_shift_clicks_are_told_apart() {
    let (mut screen, mut windows) = inventory_screen();
    let (x, y) = slot_pixel(&screen, &windows, 9);
    assert_eq!(
        screen.mouse_clicked(x, y, true, false, 0, &windows),
        WindowInput::Click { slot: 9, button: 0, mode: 1 }
    );
    windows.cursor_item = Some(item(2, 1));
    assert_eq!(
        screen.mouse_clicked(0, 0, false, false, 9000, &windows),
        WindowInput::BeginDrag { button: 0, slot: None }
    );
    perform(&mut windows, WindowInput::BeginDrag { button: 0, slot: None }, false);
    // A drag that painted nothing is a click where the button is let go.
    assert_eq!(
        screen.mouse_released(0, 0, false, &windows),
        WindowInput::ClickInstead { slot: OUTSIDE, button: 0 }
    );
    assert_eq!(screen.mouse_released(0, 0, true, &windows), WindowInput::Ignore);
    perform(&mut windows, WindowInput::ClickInstead { slot: OUTSIDE, button: 0 }, false);
    assert!(windows.cursor_item.is_none() && !windows.drag_active);
    assert_eq!(screen.key_pressed(x, y, GuiKey::Escape, false, &windows), WindowInput::Close);
    windows.cursor_item = None;
    assert_eq!(
        screen.key_pressed(x, y, GuiKey::Drop, true, &windows),
        WindowInput::Click { slot: 9, button: 1, mode: 4 }
    );
    assert_eq!(
        screen.key_pressed(x, y, GuiKey::Digit(3), false, &windows),
        WindowInput::Click { slot: 9, button: 2, mode: 2 }
    );
    assert_eq!(hotbar_digit(GuiKey::Digit(9)), Some(8));
    assert_eq!(hotbar_digit(GuiKey::Digit(0)), None);
    assert_eq!(hotbar_digit(GuiKey::Other), None);
}

#[test]
fn closing_a_window_ends_its_drag() {
    let (_, mut windows) = inventory_screen();
    windows.cursor_item = Some(item(1, 8));
    perform(&mut windows, WindowInput::BeginDrag { button: 0, slot: Some(10) }, false);
    assert!(windows.drag_active && windows.drag_slots == vec![10]);
    let packets = perform(&mut windows, WindowInput::Close, false);
    assert_eq!(packets, vec![ServerboundPacket::CloseWindow { window_id: 0 }]);
    assert!(windows.open_container.is_none() && windows.cursor_item.is_none());
    assert!(!windows.drag_active && windows.drag_slots.is_empty());
    // Closing again tells nobody.
    assert!(perform(&mut windows, WindowInput::Close, false).is_empty());
}

#[test]
fn a_furnace_burns_and_smelts() {
    let mut furnace = Container::open(2, "minecraft:furnace", String::new(), 3);
    assert_eq!(furnace_progress(&furnace), (None, None));
    furnace.set_property(0, 100); // burning for 100 more ticks
    furnace.set_property(1, 200); // of 200
    furnace.set_property(2, 50); // cooked for 50 ticks
    furnace.set_property(3, 200); // of 200
    let (burn, cook) = furnace_progress(&furnace);
    assert_eq!(burn, Some(6));
    assert_eq!(cook, Some(6));
}

#[test]
fn effects_are_named_and_timed() {
    assert_eq!(potion_info(1).map(|i| i.0), Some("Speed"));
    assert_eq!(potion_info(99), None);
    assert_eq!(amplifier_suffix(0), "");
    assert_eq!(amplifier_suffix(1), " II");
    assert_eq!(amplifier_suffix(3), " IV");
    assert_eq!(ticks_to_elapsed(20 * 65), "1:05");
    assert_eq!(ticks_to_elapsed(0), "0:00");
    assert_eq!(chest_top(3), 71);
    assert_eq!(effect_step(5), 33);
    assert_eq!(effect_step(12), 12);
}

// ── Offers ────────────────────────────────────────────────────────────────

fn offer(disabled: bool) -> MerchantRecipe {
    MerchantRecipe { buy: item(388, 1), buy_secondary: None, sell: item(264, 1), disabled }
}

#[test]
fn the_arrows_lead_through_the_offers() {
    let mut villager = Container::open(2, "minecraft:villager", String::new(), 3);
    assert_eq!(button_at(&villager, 20, 30, 0, 0, 1), None);
    villager.set_trades(vec![offer(false), offer(true)]);
    // Nothing comes before the first offer.
    assert_eq!(button_at(&villager, 20, 30, 0, 0, 1), None);
    assert_eq!(button_at(&villager, 150, 30, 0, 0, 1), Some(TradeButton::Next));
    villager.set_selected_trade(1);
    assert_eq!(button_at(&villager, 20, 30, 0, 0, 1), Some(TradeButton::Prev));
    assert_eq!(button_at(&villager, 150, 30, 0, 0, 1), None);
    let (rect, _, _) = button_sprite(&villager, TradeButton::Next, 0, 0, 10, 20, 2);
    assert_eq!(rect, UiRect { x: 10 + 294, y: 20 + 46, width: 24, height: 38 });
    assert_eq!(offer_part_at(&villager, 40, 30, 0, 0, 1), Some(OfferPart::FirstCost));
    assert_eq!(offer_part_at(&villager, 0, 0, 0, 0, 1), None);
}

// ── Menus ─────────────────────────────────────────────────────────────────

#[test]
fn the_title_screen_leads_on() {
    let lang = english();
    let mut menu = GuiMainMenu::new(Some("Splash!".to_owned()));
    assert!(menu.mouse_clicked(960, 500).is_empty(), "nothing before the layout");
    menu.layout(&SCREEN, &lang);
    let expected = [
        GuiAction::SetScreen(ScreenKind::SelectWorld),
        GuiAction::SetScreen(ScreenKind::Multiplayer),
        GuiAction::SetScreen(ScreenKind::ModList { from_main_menu: true }),
        GuiAction::SetScreen(ScreenKind::Options { from_main_menu: true }),
        GuiAction::Quit,
    ];
    for (button, action) in menu.buttons.iter().zip(expected) {
        let (x, y) = middle(button);
        assert_eq!(menu.mouse_clicked(x, y), vec![action]);
    }
    // A label without a translation is its key.
    assert_eq!(menu.buttons[0].label, "menu.singleplayer");
    assert_eq!(menu.splash_x(&SCREEN, 100), 960 + 264 - 50);
    assert_eq!(menu.splash_x(&SCREEN, 3000), 6);
}

#[test]
fn splashes_are_picked_from_the_lines() {
    let text = "one\n\n  two  \nthree\n";
    assert_eq!(pick_splash(text, 0).as_deref(), Some("one"));
    assert_eq!(pick_splash(text, 4).as_deref(), Some("two"));
    assert_eq!(pick_splash("", 7), None);
}

#[test]
fn the_pause_menu_leads_back() {
    let mut menu = GuiIngameMenu::new();
    menu.layout(&SCREEN, &english());
    let (x, y) = middle(&menu.buttons[0]);
    assert_eq!(menu.mouse_clicked(x, y), vec![GuiAction::CloseScreen]);
    let (x, y) = middle(&menu.buttons[3]);
    assert_eq!(menu.mouse_clicked(x, y), vec![GuiAction::QuitToTitle]);
    assert_eq!(menu.key_pressed(GuiKey::Escape), vec![GuiAction::CloseScreen]);
    assert!(menu.key_pressed(GuiKey::Tab).is_empty());
}

#[test]
fn demos_are_chosen() {
    let mut menu = GuiDemoSelect::new();
    menu.layout(&SCREEN, &english());
    let (x, y) = middle(&menu.buttons[1]);
    assert_eq!(menu.mouse_clicked(x, y), vec![GuiAction::StartDemo(DemoKind::ChunkStress)]);
    assert_eq!(
        menu.key_pressed(GuiKey::Escape),
        vec![GuiAction::SetScreen(ScreenKind::MainMenu)]
    );
}

#[test]
fn disabled_buttons_do_not_answer() {
    let button = GuiButton::at_px(10, 10, 100, 1, "b".to_owned());
    assert!(button.clicked(10, 10) && button.clicked(109, 29));
    assert!(!button.clicked(110, 10) && !button.clicked(10, 30));
    let off = GuiButton::at_px(10, 10, 100, 1, "b".to_owned()).disabled(true);
    assert!(!off.clicked(50, 15));
    assert_eq!(button_pressed(&vec![off, button], 50, 15), Some(1));
}

// ── Settings ──────────────────────────────────────────────────────────────

fn shaders_off() -> ShaderSettings {
    ShaderSettings {
        shaders: false,
        shadows: false,
        specular: false,
        fog: false,
        bloom: false,
        volumetric_light: false,
        vignette: false,
        chromatic: false,
        depth_of_field: false,
        motion_blur: false,
        auto_exposure: false,
        clouds: false,
    }
}

#[test]
fn shader_buttons_flip_their_setting() {
    let lang = english();
    let mut settings = shaders_off();
    let mut screen = GuiShaders::new(true);
    screen.layout(&SCREEN, &settings, &lang);
    assert_eq!(screen.buttons.len(), 13);
    let (x, y) = middle(&screen.buttons[4]);
    // Without shaders the effects cannot be changed.
    assert!(screen.mouse_clicked(x, y, &mut settings).is_empty());
    assert!(!settings.get(Toggle::Bloom));
    let (first_x, first_y) = middle(&screen.buttons[0]);
    screen.mouse_clicked(first_x, first_y, &mut settings);
    assert!(settings.get(Toggle::Shaders));
    screen.layout(&SCREEN, &settings, &lang);
    let actions = screen.mouse_clicked(x, y, &mut settings);
    assert!(settings.get(Toggle::Bloom));
    assert!(!settings.get(Toggle::Fog));
    assert!(actions.contains(&GuiAction::SetToggle(Toggle::Bloom, true)));
    assert_eq!(on_off(true, &lang), "ON");
    assert_eq!(on_off(false, &lang), "OFF");
    assert_eq!(screen.back_screen(), ScreenKind::Options { from_main_menu: true });
    assert!(!settings.flip(Toggle::Bloom));
}

#[test]
fn volumes_are_dragged() {
    let lang = english();
    let mut screen = GuiSoundOptions::new(false);
    screen.layout(&SCREEN, &lang);
    let rect = screen.rect_for(Slider::Weather);
    let (x, y) = (rect.x + 1, rect.y + 1);
    assert_eq!(screen.slider_at(x, y), Some(Slider::Weather));
    screen.mouse_clicked(x, y);
    assert_eq!(screen.dragging, Some(Slider::Weather));
    assert_eq!(screen.mouse_released(), vec![GuiAction::SaveSettings]);
    assert_eq!(screen.dragging, None);
    assert!(screen.mouse_released().is_empty());
    assert_eq!(slider_label(Slider::Music, Some(37), &lang), "soundCategory.music: 37%");
    assert_eq!(slider_label(Slider::Music, None, &lang), "soundCategory.music: OFF");
}

#[test]
fn keys_are_bound_one_at_a_time() {
    let bindings: Vec<Binding> = ["W", "S", "A"]
        .iter()
        .map(|k| Binding {
            label: format!("key {k}"),
            key_name: k.to_string(),
            conflict: *k == "S",
        })
        .collect();
    let places: Vec<UiRect> = (0..2)
        .map(|i| UiRect { x: 300, y: 100 + 60 * i, width: 900, height: 54 })
        .collect();
    let mut screen = GuiControls::new(true);
    let (rows, marks) = screen.draw(&bindings, &places, &SCREEN, &english());
    assert_eq!(rows.len(), 2);
    let s = SCREEN.scale;
    let at = |i: i32| TextAt::Shadowed { x: 300 + 4 * s, y: 100 + 60 * i + (54 - 8 * s) / 2 };
    let text = |at: TextAt, ink: Ink, text: &str| Mark::Text { at, ink, text: text.to_owned() };
    let expected = vec![
        Mark::Shape(Shape::Background),
        text(TextAt::Centered { y: 8 * s }, Ink::White, "controls.title"),
        Mark::Shape(Shape::ListBackground),
        text(at(0), Ink::White, "key W"),
        Mark::Shape(Shape::Button(0)),
        text(at(1), Ink::ConflictRed, "key S"),
        Mark::Shape(Shape::Button(1)),
        Mark::Shape(Shape::Scrollbar { scroll: 0, last: 1, total: 3 }),
        Mark::Shape(Shape::Button(2)),
    ];
    assert_eq!(marks, expected);
    assert_eq!((rows[0].key.label.as_str(), rows[1].key.label.as_str()), ("W", "[S]"));
    let (x, y) = middle(&rows[1].key);
    assert!(screen.mouse_clicked(x, y).is_empty());
    assert_eq!(screen.binding, Some(1));
    // It is asked for, above the button that leaves.
    let (rows, marks) = screen.draw(&bindings, &places, &SCREEN, &english());
    assert_eq!(rows[1].key.label, "> ? <");
    let hint = TextAt::Halfway { width: SCREEN.width, y: SCREEN.height - 40 * s };
    assert_eq!(marks[8], text(hint, Ink::ConflictRed, "fpsmaster.controls.bindHint"));
    assert_eq!(marks[9], Mark::Shape(Shape::Button(2)));
    // The next key is bound to it; escape gives up.
    let (bound, actions) = screen.key_pressed(false);
    assert_eq!(bound, Some(1));
    assert_eq!(actions, vec![GuiAction::SaveSettings]);
    assert_eq!(screen.binding, None);
    screen.mouse_scrolled(-1);
    assert_eq!(screen.scroll, 1);
    assert_eq!(screen.max_scroll(3, 2), 1);
    let (rows, marks) = screen.draw(&bindings, &places, &SCREEN, &english());
    assert_eq!(rows[0].action, 1);
    let bar = Shape::Scrollbar { scroll: 1, last: 1, total: 3 };
    assert!(marks.contains(&Mark::Shape(bar)));
}

// ── Servers ───────────────────────────────────────────────────────────────

fn entry(name: &str, address: &str) -> ServerEntry {
    ServerEntry { name: name.to_owned(), address: address.to_owned() }
}

#[test]
fn saved_servers_are_trimmed_and_named() {
    let lang = english();
    let mut entries = Vec::new();
    let mut screen = GuiEditServer::add(&lang);
    screen.layout(&SCREEN, &lang);
    screen.name.text = "  ".to_owned();
    assert!(screen.save(&mut entries).is_empty(), "an address is needed");
    screen.address.text = " play.example.org ".to_owned();
    assert_eq!(
        screen.save(&mut entries),
        vec![GuiAction::SetScreen(ScreenKind::Multiplayer)]
    );
    assert_eq!(entries, vec![entry("play.example.org", "play.example.org")]);
    let mut screen = GuiEditServer::edit(0, entry("a", "b"));
    screen.name.text = "Mine".to_owned();
    screen.save(&mut entries);
    assert_eq!(entries, vec![entry("Mine", "b")]);
    let done = screen.key_pressed(GuiKey::Escape, &mut entries);
    assert_eq!(done.actions, vec![GuiAction::SetScreen(ScreenKind::Multiplayer)]);
}

#[test]
fn direct_connections_go_to_the_entered_address() {
    let mut screen = GuiDirectConnect::new();
    screen.layout(&SCREEN, &english());
    screen.address.text = "localhost:25565".to_owned();
    assert_eq!(screen.join(), vec![GuiAction::Join("localhost:25565".to_owned())]);
    assert_eq!(
        screen.key_pressed(GuiKey::Enter).actions,
        vec![GuiAction::Join("localhost:25565".to_owned())]
    );
}

/// Three servers on a screen with room for two.
fn server_list() -> GuiMultiplayer {
    let mut screen =
        GuiMultiplayer::new(vec![entry("a", "a:1"), entry("b", "b:2"), entry("c", "c:3")]);
    screen.layout(&SCREEN, &english());
    screen.layout_rows(&vec![
        UiRect { x: 500, y: 100, width: 900, height: 100 },
        UiRect { x: 500, y: 200, width: 900, height: 100 },
    ]);
    screen
}

#[test]
fn servers_are_selected_and_joined() {
    let mut screen = server_list();
    assert!(screen.join_selected().is_empty());
    assert!(screen.mouse_clicked(600, 250, 1000).actions.is_empty());
    assert_eq!(screen.selected, Some(1));
    // A second click within 350 ms joins.
    assert_eq!(
        screen.mouse_clicked(600, 250, 1200).actions,
        vec![GuiAction::Join("b:2".to_owned())]
    );
    assert_eq!(
        screen.key_pressed(GuiKey::Enter, false).actions,
        vec![GuiAction::Join("b:2".to_owned())]
    );
    screen.key_pressed(GuiKey::Down, false);
    assert_eq!((screen.selected, screen.scroll), (Some(2), 1), "the list follows");
    screen.key_pressed(GuiKey::Down, false);
    assert_eq!(screen.selected, Some(2));
}

#[test]
fn servers_change_places_and_back() {
    let mut screen = server_list();
    screen.select_delta(1);
    assert_eq!(screen.selected, Some(0));
    let done = screen.key_pressed(GuiKey::Down, true);
    assert!(done.store);
    assert_eq!(screen.servers[0], entry("b", "b:2"));
    assert_eq!(screen.selected, Some(1));
    assert!(screen.move_selected(-1));
    assert_eq!(screen.servers[0], entry("a", "a:1"));
    assert!(!screen.move_selected(-1), "the first cannot go up");
}

#[test]
fn removals_are_confirmed() {
    let mut screen = server_list();
    screen.selected = Some(1);
    screen.layout(&SCREEN, &english());
    let (x, y) = middle(&screen.buttons[4]);
    screen.mouse_clicked(x, y, 0);
    assert_eq!(screen.confirm_delete, Some(1));
    assert!(!screen.key_pressed(GuiKey::Escape, false).store);
    assert_eq!(screen.confirm_delete, None);
    screen.confirm_delete = Some(1);
    let done = screen.key_pressed(GuiKey::Enter, false);
    assert!(done.store);
    assert_eq!(screen.servers.len(), 2);
    assert_eq!(screen.servers[1], entry("c", "c:3"));
}

fn answered(latency_ms: u64) -> Option<PingOutcome> {
    Some(PingOutcome::Answered(PingInfo {
        latency_ms,
        players: "1/20".to_owned(),
        motd: "Welcome".to_owned(),
        sample: vec!["Alex".to_owned()],
        favicon: false,
    }))
}

#[test]
fn bars_show_the_latency() {
    for (ms, level) in [(0, 0), (149, 0), (150, 1), (299, 1), (300, 2), (600, 3), (1000, 4)] {
        assert_eq!(ping_bar_cell(&answered(ms), 0), (0, level), "{ms} ms");
    }
    assert_eq!(ping_bar_cell(&Some(PingOutcome::Failed("no route".to_owned())), 0), (0, 5));
    assert_eq!(ping_bar_cell(&None, 3), (1, 2));
    assert_eq!(status_line(&answered(5), &english()), "§7Welcome");
    assert!(ping_tooltip(&answered(5)).starts_with("5"));
    let mut screen = server_list();
    screen.update(1, PingOutcome::Failed("no route".to_owned()));
    assert!(screen.pings[1].is_some());
    assert!(screen.refresh());
    assert!(screen.pings[1].is_none());
}

// ── The chat box ──────────────────────────────────────────────────────────

#[test]
fn enter_sends_and_closes() {
    let mut chat = ChatState::new();
    let mut screen = GuiChat::new("  hello ".to_owned());
    let done = screen.key_pressed(GuiKey::Enter, &mut chat);
    assert_eq!(
        done.actions,
        vec![GuiAction::SendChat("hello".to_owned()), GuiAction::CloseScreen]
    );
    let mut screen = GuiChat::new("   ".to_owned());
    assert_eq!(
        screen.key_pressed(GuiKey::Enter, &mut chat).actions,
        vec![GuiAction::CloseScreen]
    );
    assert_eq!(
        screen.key_pressed(GuiKey::Escape, &mut chat).actions,
        vec![GuiAction::CloseScreen]
    );
}

#[test]
fn tab_asks_the_server_and_then_walks_the_candidates() {
    let mut chat = ChatState::new();
    let mut screen = GuiChat::new("/te".to_owned());
    let done = screen.key_pressed(GuiKey::Tab, &mut chat);
    assert_eq!(
        done.actions,
        vec![GuiAction::SendPacket(ServerboundPacket::TabComplete {
            text: "/te".to_owned(),
            has_position: false,
        })]
    );
    chat.set_completions(vec!["/tell".to_owned(), "/test".to_owned()]);
    screen.key_pressed(GuiKey::Tab, &mut chat);
    assert_eq!(screen.input, "/tell");
    screen.key_pressed(GuiKey::Tab, &mut chat);
    assert_eq!(screen.input, "/test");
    assert!(screen.key_pressed(GuiKey::Other, &mut chat).edits);
    assert!(!chat.has_completions());
}

#[test]
fn up_and_down_recall_what_was_sent() {
    let mut chat = ChatState::new();
    chat.record_sent("one".to_owned());
    chat.record_sent("two".to_owned());
    let mut screen = GuiChat::new(String::new());
    screen.key_pressed(GuiKey::Up, &mut chat);
    assert_eq!(screen.input, "two");
    screen.key_pressed(GuiKey::Up, &mut chat);
    assert_eq!(screen.input, "one");
    screen.key_pressed(GuiKey::Down, &mut chat);
    assert_eq!(screen.input, "two");
}

#[test]
fn clicks_in_the_lines_do_what_they_say() {
    let region = |action: ClickAction, y: i32| {
        (
            UiRect { x: 0, y, width: 100, height: 10 },
            ClickEvent { action, value: "v".to_owned() },
        )
    };
    let mut screen = GuiChat::new(String::new());
    screen.click_regions = vec![
        region(ClickAction::RunCommand, 0),
        region(ClickAction::SuggestCommand, 10),
        region(ClickAction::OpenUrl, 20),
        region(ClickAction::CopyToClipboard, 30),
    ];
    assert_eq!(screen.mouse_clicked(5, 5), vec![GuiAction::SendChat("v".to_owned())]);
    assert!(screen.mouse_clicked(5, 15).is_empty());
    assert_eq!(screen.input, "v");
    assert_eq!(screen.mouse_clicked(5, 25), vec![GuiAction::OpenUrl("v".to_owned())]);
    assert_eq!(screen.mouse_clicked(5, 35), vec![GuiAction::CopyToClipboard("v".to_owned())]);
    assert!(screen.mouse_clicked(5, 45).is_empty());
}
