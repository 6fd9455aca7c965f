//! What clicks and keys on the menus and forms come to.

use vstd::prelude::*;
use crate::container::state::{Container, WindowKind};
use super::controls::{action_from, GuiControls};
use super::edit_server::{GuiDirectConnect, GuiEditServer};
use super::inventory::{digit_slot, window_progress};
use super::menus::{GuiDemoSelect, GuiIngameMenu, GuiMainMenu};
use super::shaders::GuiShaders;
use super::sound_options::{GuiSoundOptions, Slider};
use super::widgets::{buttons_view, first_pressed, GuiAction, GuiKey, ScreenKind};

verus! {

/// The title screen does one thing for each of its buttons: the last of them quits, the
/// others lead to other screens. A click beside them does nothing.
pub proof fn law_the_title_screen_does_what_is_clicked(menu: GuiMainMenu, x: int, y: int)
    requires
        menu.buttons@.len() == 5,
    ensures
        ({
            let does = menu.click_does(x, y);
            match first_pressed(buttons_view(menu.buttons@), x, y) {
                None => does.len() == 0,
                Some(i) => {
                    &&& does.len() == 1
                    &&& i == 0 ==> does[0] == GuiAction::SetScreen(ScreenKind::SelectWorld)
                    &&& i == 1 ==> does[0] == GuiAction::SetScreen(ScreenKind::Multiplayer)
                    &&& i == 2 ==> does[0] == GuiAction::SetScreen(
                        ScreenKind::ModList { from_main_menu: true },
                    )
                    &&& i == 3 ==> does[0] == GuiAction::SetScreen(
                        ScreenKind::Options { from_main_menu: true },
                    )
                    &&& i == 4 ==> does[0] == GuiAction::Quit
                },
            }
        }),
{
}

/// The first button of the game's menu goes back to the game, and the last leaves it; what
/// it leads to returns to the game. Escape goes back as the first button does.
pub proof fn law_the_games_menu_does_what_is_clicked(menu: GuiIngameMenu, x: int, y: int, key: GuiKey)
    requires
        menu.buttons@.len() == 4,
    ensures
        ({
            let does = menu.click_does(x, y);
            match first_pressed(buttons_view(menu.buttons@), x, y) {
                None => does.len() == 0,
                Some(i) => {
                    &&& does.len() == 1
                    &&& i == 0 ==> does[0] == GuiAction::CloseScreen && does
                        == GuiIngameMenu::key_does(GuiKey::Escape)
                    &&& i == 1 ==> does[0] == GuiAction::SetScreen(
                        ScreenKind::Options { from_main_menu: false },
                    )
                    &&& i == 2 ==> does[0] == GuiAction::SetScreen(
                        ScreenKind::ModList { from_main_menu: false },
                    )
                    &&& i == 3 ==> does[0] == GuiAction::QuitToTitle
                },
            }
        }),
        GuiIngameMenu::key_does(key).len() == 0 <==> key != GuiKey::Escape,
{
}

/// The last button of the choice of demos goes back to the title screen, as escape does;
/// the others start a demo each.
pub proof fn law_demos_are_started_by_their_buttons(
    menu: GuiDemoSelect,
    x: int,
    y: int,
    key: GuiKey,
)
    requires
        menu.buttons@.len() == 4,
    ensures
        ({
            let does = menu.click_does(x, y);
            match first_pressed(buttons_view(menu.buttons@), x, y) {
                None => does.len() == 0,
                Some(i) => {
                    &&& does.len() == 1
                    &&& i == 3 ==> does == GuiDemoSelect::key_does(GuiKey::Escape)
                    &&& 0 <= i < 3 ==> does[0] is StartDemo
                },
            }
        }),
        GuiDemoSelect::key_does(key) == if key == GuiKey::Escape {
            seq![GuiAction::SetScreen(ScreenKind::MainMenu)]
        } else {
            Seq::<GuiAction>::empty()
        },
{
}

/// Before the buttons are laid out no click does anything.
pub proof fn law_menus_wait_for_their_buttons(
    main: GuiMainMenu,
    game: GuiIngameMenu,
    demos: GuiDemoSelect,
    x: int,
    y: int,
)
    ensures
        main.buttons@.len() < 5 ==> main.click_does(x, y).len() == 0,
        game.buttons@.len() < 4 ==> game.click_does(x, y).len() == 0,
        demos.buttons@.len() < 4 ==> demos.click_does(x, y).len() == 0,
{
}

/// Escape leaves the settings for the screen that they were opened from, and they are
/// kept; no other key does anything.
pub proof fn law_escape_leaves_the_settings(
    shaders: GuiShaders,
    sounds: GuiSoundOptions,
    key: GuiKey,
)
    ensures
        key != GuiKey::Escape ==> shaders.key_does(key).len() == 0 && sounds.key_does(key).len()
            == 0,
        shaders.key_does(GuiKey::Escape) == seq![
            GuiAction::SaveSettings,
            GuiAction::SetScreen(ScreenKind::Options { from_main_menu: shaders.from_main_menu }),
        ],
        sounds.key_does(GuiKey::Escape) == seq![
            GuiAction::SaveSettings,
            GuiAction::SetScreen(ScreenKind::Options { from_main_menu: sounds.from_main_menu }),
        ],
        shaders.key_does(GuiKey::Escape).last() == GuiAction::SetScreen(shaders.goes_back_to()),
{
}

/// Keys go to the name while it has the focus, else to the address while that has it, else
/// nowhere.
pub proof fn law_keys_go_to_the_focused_field(form: GuiEditServer, direct: GuiDirectConnect)
    ensures
        form.keys_go_to() == Some(0usize) <==> form.name.focused,
        form.keys_go_to() == Some(1usize) <==> form.address.focused && !form.name.focused,
        form.keys_go_to() is None <==> !form.address.focused && !form.name.focused,
        direct.keys_go_to() is Some <==> direct.address.focused,
        direct.keys_go_to() matches Some(i) ==> i == 0,
{
}

/// A form opens with what it was given, and keys go to its address.
pub proof fn law_forms_open_at_the_address(
    form: GuiEditServer,
    editing: Option<usize>,
    name: Seq<char>,
    address: Seq<char>,
)
    requires
        form.opened(editing, name, address),
    ensures
        form.editing == editing,
        form.name.text@ == name && form.address.text@ == address,
        form.keys_go_to() == Some(1usize),
{
}

/// A click on the controls presses a button where one of them is: that of a row, or the one
/// that leaves.
pub proof fn law_controls_are_pressed_where_they_are(screen: GuiControls, x: int, y: int)
    ensures
        action_from(screen.row_buttons@, x, y, 0) is Some ==> screen.presses_one(x, y),
        screen.done matches Some(b) && b@.pressed(x, y) ==> screen.presses_one(x, y),
        screen.done is None && action_from(screen.row_buttons@, x, y, 0) is None
            ==> !screen.presses_one(x, y),
        (screen.done matches Some(b) ==> !b@.pressed(x, y)) && screen.presses_one(x, y)
            ==> action_from(screen.row_buttons@, x, y, 0) is Some,
{
}

/// The volumes have one button, and a click presses it only where it is; each volume has a
/// place of its own, and none before the screen is laid out.
pub proof fn law_volumes_have_places(screen: GuiSoundOptions, one: Slider, other: Slider, x: int, y: int)
    ensures
        screen.presses_done(x, y) <==> (screen.done matches Some(b) && b@.pressed(x, y)),
        screen.rects@.len() == 0 ==> screen.place_of(one).width == 0 && screen.place_of(one).height
            == 0,
        screen.rects@.len() == 9 ==> screen.rects@.contains(screen.place_of(one)),
        screen.rects@.len() == 9 && one != other && screen.rects@.no_duplicates()
            ==> screen.place_of(one) != screen.place_of(other),
        screen.rects@.len() == 9 ==> screen.place_of(Slider::Master) == screen.rects@[0]
            && screen.place_of(Slider::Ambient) == screen.rects@[8],
{
}

/// The digits from one to nine stand for the nine slots of the hotbar, in order; zero and
/// other keys for none.
pub proof fn law_digits_stand_for_the_hotbar(a: u8, b: u8)
    ensures
        digit_slot(GuiKey::Digit(a)) is Some <==> 1 <= a <= 9,
        1 <= a <= 9 ==> (digit_slot(GuiKey::Digit(a)) matches Some(s) && s + 1 == a),
        1 <= a < b <= 9 ==> digit_slot(GuiKey::Digit(a))->0 < digit_slot(GuiKey::Digit(b))->0,
        digit_slot(GuiKey::Escape) is None,
{
}

/// Only furnaces show a flame or an arrow.
pub proof fn law_only_furnaces_burn(kind: WindowKind, p: Seq<i16>)
    ensures
        kind != WindowKind::Furnace ==> window_progress(kind, p) == (None::<int>, None::<int>),
        kind == WindowKind::Furnace ==> (window_progress(kind, p).0 is Some <==> p[0] > 0),
{
}

/// The selected offer is the one asked for where it is there, and else the last one.
pub proof fn law_the_selected_offer_is_there(index: usize, n: int)
    requires
        0 <= n <= usize::MAX,
    ensures
        n > 0 ==> 0 <= Container::offer_kept(index, n) < n,
        index < n ==> Container::offer_kept(index, n) == index,
        n > 0 && index >= n ==> Container::offer_kept(index, n) + 1 == n,
        n == 0 ==> Container::offer_kept(index, n) == 0,
{
}

} // verus!
