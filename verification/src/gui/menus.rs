//! The title screen, the pause menu and the choice of demo.

use vstd::prelude::*;
use crate::chat::lang::Language;
use crate::game::worldgen::DemoKind;
use crate::text::{lines_of, text_lines, texts_of};
use super::widgets::{
    all_apart, button_at, button_pressed, buttons_view, first_pressed, half, halved, nothing, only,
    ButtonModel, GuiAction, GuiButton, GuiKey, Screen, ScreenKind,
};

verus! {

// ── The title screen ──────────────────────────────────────────────────────

/// The title screen.
#[derive(Debug)]
pub struct GuiMainMenu {
    pub buttons: Vec<GuiButton>,
    /// The line beside the logo.
    pub splash: Option<String>,
}

/// The buttons of the title screen.
pub open spec fn main_menu_buttons(screen: Screen, lang: Language) -> Seq<ButtonModel> {
    let s = screen.scale as int;
    let cx = screen.width / 2;
    let top = screen.height / 4 + 48 * s;
    seq![
        button_at(cx - 100 * s, top, 200 * s, s, lang.text_for("menu.singleplayer"@)),
        button_at(cx - 100 * s, top + 24 * s, 200 * s, s, lang.text_for("menu.multiplayer"@)),
        button_at(cx - 100 * s, top + 48 * s, 200 * s, s, lang.text_for("fpsmaster.menu.mods"@)),
        button_at(cx - 100 * s, top + 72 * s, 98 * s, s, lang.text_for("menu.options"@)),
        button_at(cx + 2 * s, top + 72 * s, 98 * s, s, lang.text_for("menu.quit"@)),
    ]
}

/// What a button of the title screen does.
pub open spec fn main_menu_action(button: int) -> GuiAction {
    if button == 0 {
        GuiAction::SetScreen(ScreenKind::SelectWorld)
    } else if button == 1 {
        GuiAction::SetScreen(ScreenKind::Multiplayer)
    } else if button == 2 {
        GuiAction::SetScreen(ScreenKind::ModList { from_main_menu: true })
    } else if button == 3 {
        GuiAction::SetScreen(ScreenKind::Options { from_main_menu: true })
    } else {
        GuiAction::Quit
    }
}

/// The line that a number picks from a file with one line each; none from an empty
/// file.
pub open spec fn picked(text: Seq<char>, seed: int) -> Option<Seq<char>> {
    let lines = lines_of(text);
    if lines.len() == 0 {
        None
    } else {
        Some(lines[seed % (lines.len() as int)])
    }
}

/// Pick a line from a file with one line each.
pub fn pick_splash(text: &str, seed: u64) -> (line: Option<String>)
    ensures
        match line {
            Some(l) => picked(text@, seed as int) == Some(l@),
            None => picked(text@, seed as int) is None,
        },
{
    let mut lines = text_lines(text);
    if lines.len() == 0 {
        return None;
    }
    let ghost all = lines@;
    let at: usize = (seed % lines.len() as u64) as usize;
    let line = lines.swap_remove(at);
    assert(texts_of(all)[at as int] == line@);
    Some(line)
}

/// Where the line beside the logo starts, given its width: around a place to the right
/// of the middle, but on the screen.
pub open spec fn splash_start(screen: Screen, width: int) -> int {
    let s = screen.scale as int;
    let wanted = screen.width / 2 + 88 * s - width / 2;
    let last = screen.width - width - 2 * s;
    let kept = if wanted < last {
        wanted
    } else {
        last
    };
    if kept > 2 * s {
        kept
    } else {
        2 * s
    }
}

impl GuiMainMenu {
    /// The title screen with a line beside the logo.
    pub fn new(splash: Option<String>) -> (screen: GuiMainMenu)
        ensures
            screen.buttons@ == Seq::<GuiButton>::empty(),
            screen.splash == splash,
    {
        GuiMainMenu { buttons: Vec::new(), splash }
    }

    /// Put the buttons in place.
    pub fn layout(&mut self, screen: &Screen, lang: &Language)
        requires
            screen.wf(),
        ensures
            buttons_view(final(self).buttons@) == main_menu_buttons(*screen, *lang),
            final(self).splash == old(self).splash,
    {
        let s: i32 = screen.scale;
        let cx: i32 = screen.width / 2;
        let top: i32 = screen.height / 4 + 48 * s;
        let mut buttons: Vec<GuiButton> = Vec::new();
        buttons.push(GuiButton::at_px(cx - 100 * s, top, 200 * s, s, lang.tr("menu.singleplayer")));
        buttons.push(
            GuiButton::at_px(cx - 100 * s, top + 24 * s, 200 * s, s, lang.tr("menu.multiplayer")),
        );
        buttons.push(
            GuiButton::at_px(
                cx - 100 * s,
                top + 48 * s,
                200 * s,
                s,
                lang.tr("fpsmaster.menu.mods"),
            ),
        );
        buttons.push(
            GuiButton::at_px(cx - 100 * s, top + 72 * s, 98 * s, s, lang.tr("menu.options")),
        );
        buttons.push(GuiButton::at_px(cx + 2 * s, top + 72 * s, 98 * s, s, lang.tr("menu.quit")));
        self.buttons = buttons;
        assert(buttons_view(self.buttons@) =~= main_menu_buttons(*screen, *lang));
    }

    /// Where the line beside the logo starts, given its width.
    pub fn splash_x(&self, screen: &Screen, width: i32) -> (x: i32)
        requires
            screen.wf(),
            0 <= width <= 0x1000_0000,
        ensures
            x == splash_start(*screen, width as int),
    {
        let s: i32 = screen.scale;
        let wanted: i32 = screen.width / 2 + 88 * s - width / 2;
        let last: i32 = screen.width - width - 2 * s;
        let kept: i32 = if wanted < last {
            wanted
        } else {
            last
        };
        if kept > 2 * s {
            kept
        } else {
            2 * s
        }
    }

    /// What a click does: what the button says, once all are there.
    pub open spec fn click_does(self, x: int, y: int) -> Seq<GuiAction> {
        match first_pressed(buttons_view(self.buttons@), x, y) {
            Some(i) => if self.buttons@.len() == 5 {
                seq![main_menu_action(i)]
            } else {
                Seq::empty()
            },
            None => Seq::empty(),
        }
    }

    /// A click.
    pub fn mouse_clicked(&self, x: i32, y: i32) -> (actions: Vec<GuiAction>)
        requires
            self.buttons@.len() <= 5,
        ensures
            actions@ == self.click_does(x as int, y as int),
    {
        if self.buttons.len() < 5 {
            return nothing();
        }
        match button_pressed(&self.buttons, x, y) {
            Some(0) => only(GuiAction::SetScreen(ScreenKind::SelectWorld)),
            Some(1) => only(GuiAction::SetScreen(ScreenKind::Multiplayer)),
            Some(2) => only(GuiAction::SetScreen(ScreenKind::ModList { from_main_menu: true })),
            Some(3) => only(GuiAction::SetScreen(ScreenKind::Options { from_main_menu: true })),
            Some(_) => only(GuiAction::Quit),
            None => nothing(),
        }
    }
}

/// The buttons of the title screen do not overlap.
pub proof fn law_main_menu_buttons_are_apart(screen: Screen, lang: Language)
    requires
        screen.wf(),
    ensures
        all_apart(main_menu_buttons(screen, lang)),
{
    let b = main_menu_buttons(screen, lang);
    assert forall|i: int, j: int| 0 <= i < j < b.len() implies (#[trigger] b[i]).rect.apart((
    #[trigger] b[j]).rect) by {
        assert(b.len() == 5);
        assert(i == 0 || i == 1 || i == 2 || i == 3);
        assert(j == 1 || j == 2 || j == 3 || j == 4);
    }
}

// ── The pause menu ────────────────────────────────────────────────────────

/// The pause menu over a running game.
#[derive(Debug)]
pub struct GuiIngameMenu {
    pub buttons: Vec<GuiButton>,
}

/// The buttons of the pause menu.
pub open spec fn ingame_menu_buttons(screen: Screen, lang: Language) -> Seq<ButtonModel> {
    let s = screen.scale as int;
    let full_x = halved(screen.width - 200 * s);
    let center = screen.width / 2;
    let top = screen.height / 4 + 24 * s;
    seq![
        button_at(full_x, top, 200 * s, s, lang.text_for("menu.returnToGame"@)),
        button_at(center - 100 * s, top + 24 * s, 98 * s, s, lang.text_for("menu.options"@)),
        button_at(center + 2 * s, top + 24 * s, 98 * s, s, lang.text_for("fpsmaster.menu.mods"@)),
        button_at(full_x, top + 72 * s, 200 * s, s, lang.text_for("menu.disconnect"@)),
    ]
}

/// What a button of the pause menu does.
pub open spec fn ingame_menu_action(button: int) -> GuiAction {
    if button == 0 {
        GuiAction::CloseScreen
    } else if button == 1 {
        GuiAction::SetScreen(ScreenKind::Options { from_main_menu: false })
    } else if button == 2 {
        GuiAction::SetScreen(ScreenKind::ModList { from_main_menu: false })
    } else {
        GuiAction::QuitToTitle
    }
}

impl GuiIngameMenu {
    pub fn new() -> (screen: GuiIngameMenu)
        ensures
            screen.buttons@ == Seq::<GuiButton>::empty(),
    {
        GuiIngameMenu { buttons: Vec::new() }
    }

    /// Put the buttons in place.
    pub fn layout(&mut self, screen: &Screen, lang: &Language)
        requires
            screen.wf(),
        ensures
            buttons_view(final(self).buttons@) == ingame_menu_buttons(*screen, *lang),
    {
        let s: i32 = screen.scale;
        let full_x: i32 = half(screen.width - 200 * s);
        let center: i32 = screen.width / 2;
        let top: i32 = screen.height / 4 + 24 * s;
        let mut buttons: Vec<GuiButton> = Vec::new();
        buttons.push(GuiButton::at_px(full_x, top, 200 * s, s, lang.tr("menu.returnToGame")));
        buttons.push(
            GuiButton::at_px(center - 100 * s, top + 24 * s, 98 * s, s, lang.tr("menu.options")),
        );
        buttons.push(
            GuiButton::at_px(
                center + 2 * s,
                top + 24 * s,
                98 * s,
                s,
                lang.tr("fpsmaster.menu.mods"),
            ),
        );
        buttons.push(
            GuiButton::at_px(full_x, top + 72 * s, 200 * s, s, lang.tr("menu.disconnect")),
        );
        self.buttons = buttons;
        assert(buttons_view(self.buttons@) =~= ingame_menu_buttons(*screen, *lang));
    }

    /// What a click does: what the button says, once all are there.
    pub open spec fn click_does(self, x: int, y: int) -> Seq<GuiAction> {
        match first_pressed(buttons_view(self.buttons@), x, y) {
            Some(i) => if self.buttons@.len() == 4 {
                seq![ingame_menu_action(i)]
            } else {
                Seq::empty()
            },
            None => Seq::empty(),
        }
    }

    /// What a key does.
    pub open spec fn key_does(key: GuiKey) -> Seq<GuiAction> {
        if key == GuiKey::Escape {
            seq![GuiAction::CloseScreen]
        } else {
            Seq::empty()
        }
    }

    /// A click.
    pub fn mouse_clicked(&self, x: i32, y: i32) -> (actions: Vec<GuiAction>)
        requires
            self.buttons@.len() <= 4,
        ensures
            actions@ == self.click_does(x as int, y as int),
    {
        if self.buttons.len() < 4 {
            return nothing();
        }
        match button_pressed(&self.buttons, x, y) {
            Some(0) => only(GuiAction::CloseScreen),
            Some(1) => only(GuiAction::SetScreen(ScreenKind::Options { from_main_menu: false })),
            Some(2) => only(GuiAction::SetScreen(ScreenKind::ModList { from_main_menu: false })),
            Some(_) => only(GuiAction::QuitToTitle),
            None => nothing(),
        }
    }

    /// A key: the escape key goes back to the game.
    pub fn key_pressed(&self, key: GuiKey) -> (actions: Vec<GuiAction>)
        ensures
            actions@ == GuiIngameMenu::key_does(key),
    {
        if key == GuiKey::Escape {
            only(GuiAction::CloseScreen)
        } else {
            nothing()
        }
    }
}

impl Default for GuiIngameMenu {
    fn default() -> (screen: Self)
        ensures
            screen.buttons@ == Seq::<GuiButton>::empty(),
    {
        GuiIngameMenu::new()
    }
}

/// The buttons of the pause menu do not overlap.
pub proof fn law_ingame_menu_buttons_are_apart(screen: Screen, lang: Language)
    requires
        screen.wf(),
    ensures
        all_apart(ingame_menu_buttons(screen, lang)),
{
    let b = ingame_menu_buttons(screen, lang);
    assert forall|i: int, j: int| 0 <= i < j < b.len() implies (#[trigger] b[i]).rect.apart((
    #[trigger] b[j]).rect) by {
        assert(b.len() == 4);
        assert(i == 0 || i == 1 || i == 2);
        assert(j == 1 || j == 2 || j == 3);
    }
}

// ── The choice of demo ────────────────────────────────────────────────────

/// The choice of demo.
#[derive(Debug)]
pub struct GuiDemoSelect {
    pub buttons: Vec<GuiButton>,
}

/// The buttons of the choice of demo.
pub open spec fn demo_buttons(screen: Screen, lang: Language) -> Seq<ButtonModel> {
    let s = screen.scale as int;
    let x = screen.width / 2 - 100 * s;
    let top = screen.height / 4 + 24 * s;
    seq![
        button_at(x, top, 200 * s, s, lang.text_for("fpsmaster.demo.landscape"@)),
        button_at(x, top + 24 * s, 200 * s, s, lang.text_for("fpsmaster.demo.chunkStress"@)),
        button_at(x, top + 48 * s, 200 * s, s, lang.text_for("fpsmaster.demo.entityStress"@)),
        button_at(x, top + 84 * s, 200 * s, s, lang.text_for("gui.back"@)),
    ]
}

/// What a button of the choice of demo does.
pub open spec fn demo_action(button: int) -> GuiAction {
    if button == 0 {
        GuiAction::StartDemo(DemoKind::Landscape)
    } else if button == 1 {
        GuiAction::StartDemo(DemoKind::ChunkStress)
    } else if button == 2 {
        GuiAction::StartDemo(DemoKind::EntityStress)
    } else {
        GuiAction::SetScreen(ScreenKind::MainMenu)
    }
}

impl GuiDemoSelect {
    pub fn new() -> (screen: GuiDemoSelect)
        ensures
            screen.buttons@ == Seq::<GuiButton>::empty(),
    {
        GuiDemoSelect { buttons: Vec::new() }
    }

    /// Put the buttons in place.
    pub fn layout(&mut self, screen: &Screen, lang: &Language)
        requires
            screen.wf(),
        ensures
            buttons_view(final(self).buttons@) == demo_buttons(*screen, *lang),
    {
        let s: i32 = screen.scale;
        let x: i32 = screen.width / 2 - 100 * s;
        let top: i32 = screen.height / 4 + 24 * s;
        let mut buttons: Vec<GuiButton> = Vec::new();
        buttons.push(GuiButton::at_px(x, top, 200 * s, s, lang.tr("fpsmaster.demo.landscape")));
        buttons.push(
            GuiButton::at_px(x, top + 24 * s, 200 * s, s, lang.tr("fpsmaster.demo.chunkStress")),
        );
        buttons.push(
            GuiButton::at_px(x, top + 48 * s, 200 * s, s, lang.tr("fpsmaster.demo.entityStress")),
        );
        buttons.push(GuiButton::at_px(x, top + 84 * s, 200 * s, s, lang.tr("gui.back")));
        self.buttons = buttons;
        assert(buttons_view(self.buttons@) =~= demo_buttons(*screen, *lang));
    }

    /// What a click does: what the button says, once all are there.
    pub open spec fn click_does(self, x: int, y: int) -> Seq<GuiAction> {
        match first_pressed(buttons_view(self.buttons@), x, y) {
            Some(i) => if self.buttons@.len() == 4 {
                seq![demo_action(i)]
            } else {
                Seq::empty()
            },
            None => Seq::empty(),
        }
    }

    /// What a key does.
    pub open spec fn key_does(key: GuiKey) -> Seq<GuiAction> {
        if key == GuiKey::Escape {
            seq![GuiAction::SetScreen(ScreenKind::MainMenu)]
        } else {
            Seq::empty()
        }
    }

    /// A click.
    pub fn mouse_clicked(&self, x: i32, y: i32) -> (actions: Vec<GuiAction>)
        requires
            self.buttons@.len() <= 4,
        ensures
            actions@ == self.click_does(x as int, y as int),
    {
        if self.buttons.len() < 4 {
            return nothing();
        }
        match button_pressed(&self.buttons, x, y) {
            Some(0) => only(GuiAction::StartDemo(DemoKind::Landscape)),
            Some(1) => only(GuiAction::StartDemo(DemoKind::ChunkStress)),
            Some(2) => only(GuiAction::StartDemo(DemoKind::EntityStress)),
            Some(_) => only(GuiAction::SetScreen(ScreenKind::MainMenu)),
            None => nothing(),
        }
    }

    /// A key: the escape key goes back to the title screen.
    pub fn key_pressed(&self, key: GuiKey) -> (actions: Vec<GuiAction>)
        ensures
            actions@ == GuiDemoSelect::key_does(key),
    {
        if key == GuiKey::Escape {
            only(GuiAction::SetScreen(ScreenKind::MainMenu))
        } else {
            nothing()
        }
    }
}

impl Default for GuiDemoSelect {
    fn default() -> (screen: Self)
        ensures
            screen.buttons@ == Seq::<GuiButton>::empty(),
    {
        GuiDemoSelect::new()
    }
}

/// The buttons of the choice of demo do not overlap.
pub proof fn law_demo_buttons_are_apart(screen: Screen, lang: Language)
    requires
        screen.wf(),
    ensures
        all_apart(demo_buttons(screen, lang)),
{
    let b = demo_buttons(screen, lang);
    assert forall|i: int, j: int| 0 <= i < j < b.len() implies (#[trigger] b[i]).rect.apart((
    #[trigger] b[j]).rect) by {
        assert(b.len() == 4);
        assert(i == 0 || i == 1 || i == 2);
        assert(j == 1 || j == 2 || j == 3);
    }
}

} // verus!
