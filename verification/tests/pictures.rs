//! What the screens draw.

use fpsmaster_app::chat::lang::Language;
use fpsmaster_app::chat::legacy::Font;
use fpsmaster_app::container::state::Container;
use fpsmaster_app::container::trades::MerchantRecipe;
use fpsmaster_app::gui::edit_server::{GuiDirectConnect, GuiEditServer, ServerEntry};
use fpsmaster_app::gui::inventory::GuiContainer;
use fpsmaster_app::gui::marks::{GuiTexture, Ink, Mark, Shape, ShownItem, TextAt};
use fpsmaster_app::gui::menus::{GuiDemoSelect, GuiIngameMenu, GuiMainMenu};
use fpsmaster_app::gui::merchant::OfferPart;
use fpsmaster_app::gui::multiplayer::{GuiMultiplayer, PingInfo, PingOutcome};
use fpsmaster_app::gui::sound_options::GuiSoundOptions;
use fpsmaster_app::gui::widgets::{Screen, UiRect};
use fpsmaster_app::gui::window_picture::{
    draw_active_potion_effects, draw_anvil_field, draw_background, draw_offer, draw_progress,
    draw_titles, Tip,
};
use fpsmaster_app::item::SlotItem;

const SCREEN: Screen = Screen { width: 640, height: 480, scale: 2 };

fn no_words() -> Language {
    Language { entries: Vec::new() }
}

fn rect(x: i32, y: i32, width: i32, height: i32) -> UiRect {
    UiRect { x, y, width, height }
}

fn piece(r: UiRect, sheet: GuiTexture, u: u32, v: u32, width: u32, height: u32) -> Mark {
    Mark::Shape(Shape::Sprite { rect: r, sheet, u, v, width, height })
}

fn text(at: TextAt, ink: Ink, text: &str) -> Mark {
    Mark::Text { at, ink, text: text.to_owned() }
}

fn furnace(properties: [i16; 8]) -> Container {
    let mut window = Container::open(1, "minecraft:furnace", "Furnace".into(), 3);
    window.properties = properties;
    window
}

#[test]
fn a_chest_is_drawn_in_two_pieces() {
    let chest = Container::open(1, "minecraft:chest", "Chest".into(), 27);
    assert_eq!(
        draw_background(&chest, 10, 20, 2),
        vec![
            piece(rect(10, 20, 352, 142), GuiTexture::Chest, 0, 0, 176, 71),
            piece(rect(10, 162, 352, 192), GuiTexture::Chest, 0, 126, 176, 96),
        ],
    );
    let hopper = Container::open(1, "minecraft:hopper", String::new(), 5);
    assert_eq!(
        draw_background(&hopper, 0, 0, 1),
        vec![piece(rect(0, 0, 176, 133), GuiTexture::Hopper, 0, 0, 176, 133)],
    );
}

#[test]
fn the_flame_grows_from_below() {
    assert_eq!(draw_progress(&furnace([0; 8]), 0, 0, 1), Vec::new());
    assert_eq!(
        draw_progress(&furnace([100, 200, 50, 200, 0, 0, 0, 0]), 0, 0, 1),
        vec![
            piece(rect(56, 42, 14, 7), GuiTexture::Furnace, 176, 6, 14, 7),
            piece(rect(79, 34, 7, 16), GuiTexture::Furnace, 176, 14, 7, 16),
        ],
    );
}

#[test]
fn windows_have_titles_but_for_the_players() {
    let lang = no_words();
    let ink = Ink::Rgba(64, 64, 64, 255);
    assert_eq!(draw_titles(&Container::player(), 0, 0, 1, &lang), Vec::new());
    assert_eq!(
        draw_titles(&furnace([0; 8]), 0, 0, 2, &lang),
        vec![
            text(TextAt::Plain { x: 16, y: 12 }, ink, "Furnace"),
            text(TextAt::Plain { x: 16, y: 144 }, ink, "container.inventory"),
        ],
    );
}

#[test]
fn effects_are_listed_beside_the_window() {
    let lang = no_words();
    let drawn = draw_active_potion_effects(&vec![(200, 0, 20), (6, 1, 1300)], 200, 10, 1, &lang);
    // The first is no effect; the second keeps its place and has no icon.
    assert_eq!(
        drawn,
        vec![
            piece(rect(76, 43, 140, 32), GuiTexture::Inventory, 0, 166, 140, 32),
            text(
                TextAt::Shadowed { x: 104, y: 49 },
                Ink::Rgba(255, 255, 255, 255),
                "Instant Health II",
            ),
            text(TextAt::Shadowed { x: 104, y: 59 }, Ink::Rgba(127, 127, 127, 255), "1:05"),
        ],
    );
    let many: Vec<(u8, i8, i32)> = (0..7).map(|_| (1, 0, 0)).collect();
    let packed = draw_active_potion_effects(&many, 200, 0, 1, &lang);
    assert_eq!(packed.len(), 28);
    assert_eq!(packed[4], piece(rect(76, 22, 140, 32), GuiTexture::Inventory, 0, 166, 140, 32));
}

#[test]
fn the_anvil_names_what_it_works_on() {
    assert_eq!(draw_anvil_field(false, 0, 0, 1).len(), 1);
    assert_eq!(
        draw_anvil_field(true, 0, 0, 1)[1],
        Mark::Shape(Shape::ItemName {
            x: 33,
            y: 28,
            ink: Ink::Rgba(224, 224, 224, 255),
            slot: 0,
        }),
    );
}

fn trader(disabled: bool) -> Container {
    let mut window = Container::open(2, "minecraft:villager", String::new(), 3);
    window.set_trades(vec![MerchantRecipe {
        buy: SlotItem::new(388, 1, 0),
        buy_secondary: None,
        sell: SlotItem::new(264, 1, 0),
        disabled,
    }]);
    window
}

#[test]
fn offers_are_drawn_with_their_buttons() {
    assert_eq!(
        draw_offer(&Container::player(), 0, 0, 0, 0, 1),
        Vec::new(),
        "there is nothing to offer",
    );
    let shown = |part, x| {
        Mark::Shape(Shape::Item {
            rect: rect(x, 24, 16, 16),
            item: ShownItem::Offer(part),
            size: 2,
        })
    };
    let plain = draw_offer(&trader(false), 0, 0, 0, 0, 1);
    assert_eq!(
        plain,
        vec![
            shown(OfferPart::FirstCost, 36),
            shown(OfferPart::Goods, 120),
            piece(rect(17, 23, 12, 19), GuiTexture::Villager, 200, 19, 12, 19),
            piece(rect(147, 23, 12, 19), GuiTexture::Villager, 200, 0, 12, 19),
        ],
    );
    let locked = draw_offer(&trader(true), 0, 0, 0, 0, 1);
    assert_eq!(locked.len(), 6);
    assert_eq!(locked[1], piece(rect(83, 51, 28, 21), GuiTexture::Villager, 212, 0, 28, 21));
}

#[test]
fn the_window_shows_its_items_and_tells_of_them() {
    let lang = no_words();
    let mut inventory: Vec<Option<SlotItem>> = vec![None; 45];
    inventory[36] = Some(SlotItem::new(1, 5, 0));
    let mut screen = GuiContainer::new();
    let window = Container::player();
    assert_eq!(
        screen.draw(&SCREEN, None, &inventory, false, &Vec::new(), 0, 0, &lang, &lang),
        (Vec::new(), Tip::Nothing),
    );
    // The window starts at (144, 74); the first hotbar slot is at (8, 142) in it.
    let (marks, tip) = screen.draw(
        &SCREEN,
        Some(&window),
        &inventory,
        false,
        &Vec::new(),
        165,
        360,
        &lang,
        &lang,
    );
    let cell = rect(160, 358, 32, 32);
    assert_eq!(tip, Tip::Slot(36));
    assert_eq!(
        marks,
        vec![
            Mark::Shape(Shape::Fill {
                rect: rect(144, 74, 352, 332),
                ink: Ink::Rgba(0, 0, 0, 210),
            }),
            piece(rect(144, 74, 352, 332), GuiTexture::Inventory, 0, 0, 176, 166),
            Mark::Shape(Shape::Item { rect: cell, item: ShownItem::Slot(36), size: 2 }),
            Mark::Shape(Shape::Overlay { rect: cell, ink: Ink::Rgba(255, 255, 255, 128) }),
        ],
    );
    let (marks, tip) = screen.draw(
        &SCREEN,
        Some(&window),
        &inventory,
        true,
        &Vec::new(),
        165,
        360,
        &lang,
        &lang,
    );
    assert_eq!(tip, Tip::Nothing, "nothing is told while a stack is carried");
    assert_eq!(
        marks[4],
        Mark::Shape(Shape::Item {
            rect: rect(149, 344, 32, 32),
            item: ShownItem::Carried,
            size: 2,
        }),
    );
}

fn listed(favicon: bool) -> GuiMultiplayer {
    let entry = |n: &str| ServerEntry { name: n.to_owned(), address: n.to_owned() };
    let mut list = GuiMultiplayer::new(vec![entry("a"), entry("b")]);
    list.update(
        0,
        PingOutcome::Answered(PingInfo {
            latency_ms: 200,
            players: "1/20".to_owned(),
            motd: "Hi".to_owned(),
            sample: vec!["Alex".to_owned()],
            favicon,
        }),
    );
    list
}

#[test]
fn servers_are_drawn_with_their_state() {
    let lang = no_words();
    let font = Font { table: Vec::new(), other: 6 };
    let places = vec![rect(100, 40, 200, 36), rect(100, 76, 200, 36)];
    let one = Screen { width: 640, height: 480, scale: 1 };
    let mut list = listed(true);
    list.selected = Some(0);
    let (marks, tip) = list.draw(&one, &places, 32, 416, 0, 0, &lang, &font);
    assert_eq!(tip, None);
    let name = |y, n: &str| text(TextAt::Fitted { x: 135, y, width: 105 }, Ink::White, n);
    assert_eq!(
        marks[..9],
        [
            Mark::Shape(Shape::Background),
            text(TextAt::Centered { y: 16 }, Ink::White, "multiplayer.title"),
            Mark::Shape(Shape::ListBackground),
            Mark::Shape(Shape::Selection { rect: places[0] }),
            Mark::Shape(Shape::Favicon { rect: rect(100, 40, 32, 32), server: 0 }),
            name(41, "a"),
            text(TextAt::Ending { x: 283, y: 41 }, Ink::Gray, "\u{a7}71/20"),
            text(TextAt::Shadowed { x: 135, y: 52 }, Ink::Gray, "\u{a7}7Hi"),
            piece(rect(285, 40, 10, 8), GuiTexture::Icons, 0, 184, 10, 8),
        ],
    );
    assert_eq!(marks[11], name(77, "b"));
    // The bars tell of the connection, the number of players of who they are: it is
    // four glyphs wide and ends at 283.
    let tips = |list: &mut GuiMultiplayer, x, y| {
        list.draw(&one, &places, 32, 416, x, y, &lang, &font).1
    };
    assert_eq!(tips(&mut list, 290, 45), Some(vec!["200ms".to_owned()]));
    assert_eq!(tips(&mut list, 290, 80), Some(vec!["Pinging...".to_owned()]));
    assert_eq!(tips(&mut list, 282, 45), Some(vec!["Alex".to_owned()]));
    assert_eq!(tips(&mut list, 259, 45), Some(vec!["Alex".to_owned()]));
    assert_eq!(tips(&mut list, 258, 45), None);
}

#[test]
fn removing_a_server_asks_first() {
    let lang = no_words();
    let font = Font { table: Vec::new(), other: 6 };
    let mut list = listed(false);
    list.confirm_delete = Some(1);
    let (marks, _) = list.draw(&SCREEN, &Vec::new(), 0, 0, 0, 0, &lang, &font);
    assert_eq!(marks.len(), 6);
    assert_eq!(marks[2], text(TextAt::Centered { y: 168 }, Ink::White, "b"));
    let mut empty = GuiMultiplayer::new(Vec::new());
    let (marks, _) = empty.draw(&SCREEN, &Vec::new(), 32, 416, 0, 0, &lang, &font);
    assert_eq!(
        marks[3],
        text(TextAt::Centered { y: 216 }, Ink::Gray, "fpsmaster.multiplayer.empty"),
    );
}

#[test]
fn the_title_screen_has_a_logo_and_a_line() {
    let lang = no_words();
    let mut menu = GuiMainMenu::new(Some("Hello!".to_owned()));
    let with = menu.draw(&SCREEN, true, 40, "Brand", "1.0", &lang);
    assert_eq!(with.len(), 10);
    assert_eq!(with[0], piece(rect(46, 60, 310, 88), GuiTexture::Title, 0, 0, 155, 44));
    assert_eq!(with[2], text(TextAt::Shadowed { x: 476, y: 128 }, Ink::Yellow, "Hello!"));
    assert_eq!(with[9], text(TextAt::Shadowed { x: 4, y: 460 }, Ink::White, "1.0"));
    let without = menu.draw(&SCREEN, false, 40, "Brand", "1.0", &lang);
    assert_eq!(without.len(), 13);
    assert_eq!(without[0], Mark::Shape(Shape::Background));
    assert!(menu.wants_panorama());
    assert!(menu.clicks_button(320, 220));
    assert!(!menu.clicks_button(0, 0));
}

#[test]
fn menus_draw_their_title_and_buttons() {
    let lang = no_words();
    let mut pause = GuiIngameMenu::new();
    let marks = pause.draw(&SCREEN, &lang);
    assert_eq!(marks.len(), 6);
    assert_eq!(marks[1], text(TextAt::Centered { y: 120 }, Ink::White, "menu.game"));
    assert_eq!(marks[5], Mark::Shape(Shape::Button(3)));
    let mut demos = GuiDemoSelect::new();
    assert_eq!(
        demos.draw(&SCREEN, &lang)[1],
        text(TextAt::Around { x: 320, y: 120 }, Ink::White, "fpsmaster.demo.title"),
    );
}

#[test]
fn volumes_are_labelled() {
    let lang = no_words();
    let mut sounds = GuiSoundOptions::new(true);
    let mut percents: Vec<Option<i32>> = vec![Some(50); 9];
    percents[8] = None;
    let marks = sounds.draw(&SCREEN, &percents, &lang);
    assert_eq!(marks.len(), 21);
    let first = rect(10, 56, 620, 40);
    assert_eq!(marks[2], Mark::Shape(Shape::Slider { rect: first, place: 0 }));
    assert_eq!(
        marks[3],
        text(TextAt::Within { rect: first }, Ink::White, "soundCategory.master: 50%"),
    );
    assert!(!sounds.clicks_button(20, 60), "a slider is no button");
    assert!(sounds.clicks_button(320, 420));
    assert!(!sounds.draws_over_hud());
}

#[test]
fn forms_name_their_fields() {
    let lang = no_words();
    let mut form = GuiEditServer::add(&lang);
    let marks = form.draw(&SCREEN, &lang);
    assert_eq!(marks[1], text(TextAt::Centered { y: 72 }, Ink::White, "fpsmaster.server.add"));
    assert_eq!(
        marks[3],
        text(TextAt::Shadowed { x: 120, y: 196 }, Ink::Gray, "addServer.enterIp"),
    );
    assert_eq!(form.focused_text_input(), Some(1));
    let mut direct = GuiDirectConnect::new();
    assert_eq!(direct.draw(&SCREEN, &lang).len(), 6);
    assert_eq!(direct.focused_text_input(), Some(0));
}
