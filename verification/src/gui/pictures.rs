//! What the menus and the forms draw, and whether a click presses one of their buttons.

use vstd::prelude::*;
use crate::chat::lang::Language;
use crate::text::copy_text;
use super::chat_screen::GuiChat;
use super::edit_server::{
    direct_buttons, edit_buttons, field_rect, GuiDirectConnect, GuiEditServer, TextField,
};
use super::inventory::GuiContainer;
use super::marks::{
    all_buttons, line, marks_view, put, put_buttons, put_text, sprite, GuiTexture, Ink, Mark,
    MarkModel, Shape, TextAt,
};
use super::menus::{
    demo_buttons, ingame_menu_buttons, main_menu_buttons, splash_start, GuiDemoSelect,
    GuiIngameMenu, GuiMainMenu,
};
use super::multiplayer::GuiMultiplayer;
use super::shaders::{shader_buttons, GuiShaders, ShaderSettings};
use super::sound_options::{
    label_text, slider_at_place, slider_label, slider_of, slider_rect, sounds_done, GuiSoundOptions,
};
use super::widgets::{
    button_pressed, buttons_view, first_pressed, pressed_from, GuiButton, Screen, UiRect,
};

verus! {

/// A screen of buttons under a title.
pub open spec fn titled(at: TextAt, title: Seq<char>, buttons: nat) -> Seq<MarkModel> {
    seq![MarkModel::Shape(Shape::Background), line(at, Ink::White, title)] + all_buttons(buttons)
}

fn draw_titled(at: TextAt, title: String, buttons: usize) -> (marks: Vec<Mark>)
    ensures
        marks_view(marks@) == titled(at, title@, buttons as nat),
{
    let mut marks: Vec<Mark> = Vec::new();
    let ghost text = title@;
    put(&mut marks, Shape::Background);
    put_text(&mut marks, at, Ink::White, title);
    put_buttons(&mut marks, buttons);
    assert(marks_view(marks@) =~= titled(at, text, buttons as nat));
    marks
}

/// Whether a click presses one of some buttons.
pub open spec fn presses(buttons: Seq<GuiButton>, x: int, y: int) -> bool {
    exists|i: int| 0 <= i < buttons.len() && (#[trigger] buttons[i])@.pressed(x, y)
}

proof fn lemma_none_pressed(buttons: Seq<GuiButton>, x: int, y: int, from: int)
    requires
        0 <= from <= buttons.len(),
        pressed_from(buttons_view(buttons), x, y, from) is None,
    ensures
        forall|i: int| from <= i < buttons.len() ==> !(#[trigger] buttons[i])@.pressed(x, y),
    decreases buttons.len() - from,
{
    if from < buttons.len() {
        assert(buttons_view(buttons)[from] == buttons[from]@);
        lemma_none_pressed(buttons, x, y, from + 1);
    }
}

proof fn lemma_one_pressed(buttons: Seq<GuiButton>, x: int, y: int, from: int, at: int)
    requires
        0 <= from <= buttons.len(),
        pressed_from(buttons_view(buttons), x, y, from) == Some(at),
    ensures
        0 <= at < buttons.len(),
        buttons[at]@.pressed(x, y),
    decreases buttons.len() - from,
{
    if from < buttons.len() && !buttons_view(buttons)[from].pressed(x, y) {
        lemma_one_pressed(buttons, x, y, from + 1, at);
    }
}

fn any_clicked(buttons: &Vec<GuiButton>, x: i32, y: i32) -> (yes: bool)
    ensures
        yes == presses(buttons@, x as int, y as int),
{
    let pressed = button_pressed(buttons, x, y);
    proof {
        match first_pressed(buttons_view(buttons@), x as int, y as int) {
            Some(at) => lemma_one_pressed(buttons@, x as int, y as int, 0, at),
            None => lemma_none_pressed(buttons@, x as int, y as int, 0),
        }
    }
    pressed.is_some()
}

// ── The title screen ──────────────────────────────────────────────────────

/// What the title screen draws where it has no moving picture behind it.
pub open spec fn plain_backdrop(screen: Screen) -> Seq<MarkModel> {
    let full = UiRect { x: 0, y: 0, width: screen.width, height: screen.height };
    seq![
        MarkModel::Shape(Shape::Background),
        MarkModel::Shape(
            Shape::Gradient {
                rect: full,
                from: Ink::Rgba(255, 255, 255, 128),
                to: Ink::Rgba(255, 255, 255, 0),
            },
        ),
        MarkModel::Shape(
            Shape::Gradient {
                rect: full,
                from: Ink::Rgba(0, 0, 0, 0),
                to: Ink::Rgba(0, 0, 0, 128),
            },
        ),
    ]
}

/// The title screen: the logo in two halves, the line beside it, the name of the
/// product under it, the buttons, and the version in the corner.
pub open spec fn title_screen(
    menu: GuiMainMenu,
    screen: Screen,
    has_panorama: bool,
    splash_width: int,
    brand: Seq<char>,
    version: Seq<char>,
) -> Seq<MarkModel> {
    let s = screen.scale as int;
    let left = screen.width / 2 - 137 * s;
    (if has_panorama {
        Seq::empty()
    } else {
        plain_backdrop(screen)
    }) + seq![
        sprite(
            UiRect {
                x: left as i32,
                y: (30 * s) as i32,
                width: (155 * s) as i32,
                height: (44 * s) as i32,
            },
            GuiTexture::Title,
            0,
            0,
            155,
            44,
        ),
        sprite(
            UiRect {
                x: (left + 155 * s) as i32,
                y: (30 * s) as i32,
                width: (155 * s) as i32,
                height: (44 * s) as i32,
            },
            GuiTexture::Title,
            0,
            45,
            155,
            44,
        ),
    ] + (match menu.splash {
        Some(splash) => seq![
            line(
                TextAt::Shadowed {
                    x: splash_start(screen, splash_width) as i32,
                    y: (64 * s) as i32,
                },
                Ink::Yellow,
                splash@,
            ),
        ],
        None => Seq::empty(),
    }) + seq![line(TextAt::Centered { y: (76 * s) as i32 }, Ink::Yellow, brand)] + all_buttons(
        menu.buttons@.len(),
    ) + seq![
        line(
            TextAt::Shadowed { x: (2 * s) as i32, y: (screen.height - 10 * s) as i32 },
            Ink::White,
            version,
        ),
    ]
}

impl GuiMainMenu {
    /// Draw the title screen, given the width of the line beside the logo, the name of
    /// the product and its version.
    pub fn draw(
        &mut self,
        screen: &Screen,
        has_panorama: bool,
        splash_width: i32,
        brand: &str,
        version: &str,
        lang: &Language,
    ) -> (marks: Vec<Mark>)
        requires
            screen.wf(),
            0 <= splash_width <= 0x1000_0000,
        ensures
            buttons_view(final(self).buttons@) == main_menu_buttons(*screen, *lang),
            final(self).splash == old(self).splash,
            marks_view(marks@) == title_screen(
                *final(self),
                *screen,
                has_panorama,
                splash_width as int,
                brand@,
                version@,
            ),
    {
        self.layout(screen, lang);
        let s: i32 = screen.scale;
        let mut marks: Vec<Mark> = Vec::new();
        if !has_panorama {
            let full = UiRect { x: 0, y: 0, width: screen.width, height: screen.height };
            put(&mut marks, Shape::Background);
            put(
                &mut marks,
                Shape::Gradient {
                    rect: full,
                    from: Ink::Rgba(255, 255, 255, 128),
                    to: Ink::Rgba(255, 255, 255, 0),
                },
            );
            put(
                &mut marks,
                Shape::Gradient {
                    rect: full,
                    from: Ink::Rgba(0, 0, 0, 0),
                    to: Ink::Rgba(0, 0, 0, 128),
                },
            );
        }
        let left: i32 = screen.width / 2 - 137 * s;
        put(
            &mut marks,
            Shape::Sprite {
                rect: UiRect { x: left, y: 30 * s, width: 155 * s, height: 44 * s },
                sheet: GuiTexture::Title,
                u: 0,
                v: 0,
                width: 155,
                height: 44,
            },
        );
        put(
            &mut marks,
            Shape::Sprite {
                rect: UiRect { x: left + 155 * s, y: 30 * s, width: 155 * s, height: 44 * s },
                sheet: GuiTexture::Title,
                u: 0,
                v: 45,
                width: 155,
                height: 44,
            },
        );
        let x: i32 = self.splash_x(screen, splash_width);
        if let Some(splash) = &self.splash {
            put_text(
                &mut marks,
                TextAt::Shadowed { x, y: 64 * s },
                Ink::Yellow,
                copy_text(splash.as_str()),
            );
        }
        put_text(&mut marks, TextAt::Centered { y: 76 * s }, Ink::Yellow, copy_text(brand));
        put_buttons(&mut marks, self.buttons.len());
        put_text(
            &mut marks,
            TextAt::Shadowed { x: 2 * s, y: screen.height - 10 * s },
            Ink::White,
            copy_text(version),
        );
        assert(marks_view(marks@) =~= title_screen(
            *self,
            *screen,
            has_panorama,
            splash_width as int,
            brand@,
            version@,
        ));
        marks
    }

    /// Whether a click there presses a button.
    pub fn clicks_button(&self, x: i32, y: i32) -> (yes: bool)
        ensures
            yes == presses(self.buttons@, x as int, y as int),
    {
        any_clicked(&self.buttons, x, y)
    }

    /// The moving picture is drawn behind this screen.
    pub fn wants_panorama(&self) -> (yes: bool)
        ensures
            yes,
    {
        true
    }
}

// ── The other menus ───────────────────────────────────────────────────────

impl GuiIngameMenu {
    /// Draw the menu.
    pub fn draw(&mut self, screen: &Screen, lang: &Language) -> (marks: Vec<Mark>)
        requires
            screen.wf(),
        ensures
            buttons_view(final(self).buttons@) == ingame_menu_buttons(*screen, *lang),
            marks_view(marks@) == titled(
                TextAt::Centered { y: (screen.height / 4) as i32 },
                lang.text_for("menu.game"@),
                final(self).buttons@.len(),
            ),
    {
        self.layout(screen, lang);
        draw_titled(
            TextAt::Centered { y: screen.height / 4 },
            lang.tr("menu.game"),
            self.buttons.len(),
        )
    }

    /// Whether a click there presses a button.
    pub fn clicks_button(&self, x: i32, y: i32) -> (yes: bool)
        ensures
            yes == presses(self.buttons@, x as int, y as int),
    {
        any_clicked(&self.buttons, x, y)
    }

    /// The game is drawn behind this screen.
    pub fn draws_over_hud(&self) -> (yes: bool)
        ensures
            yes,
    {
        true
    }
}

impl GuiDemoSelect {
    /// Draw the choice.
    pub fn draw(&mut self, screen: &Screen, lang: &Language) -> (marks: Vec<Mark>)
        requires
            screen.wf(),
        ensures
            buttons_view(final(self).buttons@) == demo_buttons(*screen, *lang),
            marks_view(marks@) == titled(
                TextAt::Around { x: (screen.width / 2) as i32, y: (screen.height / 4) as i32 },
                lang.text_for("fpsmaster.demo.title"@),
                final(self).buttons@.len(),
            ),
    {
        self.layout(screen, lang);
        draw_titled(
            TextAt::Around { x: screen.width / 2, y: screen.height / 4 },
            lang.tr("fpsmaster.demo.title"),
            self.buttons.len(),
        )
    }

    /// Whether a click there presses a button.
    pub fn clicks_button(&self, x: i32, y: i32) -> (yes: bool)
        ensures
            yes == presses(self.buttons@, x as int, y as int),
    {
        any_clicked(&self.buttons, x, y)
    }
}

impl GuiShaders {
    /// Draw the settings.
    pub fn draw(&mut self, screen: &Screen, settings: &ShaderSettings, lang: &Language) -> (marks:
        Vec<Mark>)
        requires
            screen.wf(),
        ensures
            buttons_view(final(self).buttons@) == shader_buttons(*screen, *settings, *lang),
            final(self).from_main_menu == old(self).from_main_menu,
            marks_view(marks@) == titled(
                TextAt::Centered { y: (15 * screen.scale) as i32 },
                lang.text_for("fpsmaster.shaders.title"@),
                final(self).buttons@.len(),
            ),
    {
        self.layout(screen, settings, lang);
        draw_titled(
            TextAt::Centered { y: 15 * screen.scale },
            lang.tr("fpsmaster.shaders.title"),
            self.buttons.len(),
        )
    }

    /// Whether a click there presses a button.
    pub fn clicks_button(&self, x: i32, y: i32) -> (yes: bool)
        ensures
            yes == presses(self.buttons@, x as int, y as int),
    {
        any_clicked(&self.buttons, x, y)
    }

    /// Whether the game is drawn behind the screen.
    pub fn draws_over_hud(&self) -> (yes: bool)
        ensures
            yes == !self.from_main_menu,
    {
        !self.from_main_menu
    }
}

/// The first `n` sliders with their labels.
pub open spec fn sliders_marks(screen: Screen, percents: Seq<Option<i32>>, n: int, lang: Language) -> Seq<
    MarkModel,
>
    decreases n,
{
    if n <= 0 {
        Seq::empty()
    } else {
        let rect = slider_rect(screen, n - 1);
        sliders_marks(screen, percents, n - 1, lang) + seq![
            MarkModel::Shape(Shape::Slider { rect, place: (n - 1) as usize }),
            line(
                TextAt::Within { rect },
                Ink::White,
                label_text(slider_at_place(n - 1), percents[n - 1], lang),
            ),
        ]
    }
}

/// The volume screen: the title, the sliders and the button that leaves.
pub open spec fn volume_screen(screen: Screen, percents: Seq<Option<i32>>, lang: Language) -> Seq<
    MarkModel,
> {
    seq![
        MarkModel::Shape(Shape::Background),
        line(
            TextAt::Centered { y: (15 * screen.scale) as i32 },
            Ink::White,
            lang.text_for("options.sounds.title"@),
        ),
    ] + sliders_marks(screen, percents, 9, lang) + all_buttons(1)
}

impl GuiSoundOptions {
    /// Draw the sliders, given the percentage of each; none for a volume that is off.
    pub fn draw(&mut self, screen: &Screen, percents: &Vec<Option<i32>>, lang: &Language) -> (marks:
        Vec<Mark>)
        requires
            screen.wf(),
            percents@.len() == 9,
        ensures
            final(self).rects@ == Seq::new(9, |i: int| slider_rect(*screen, i)),
            final(self).done matches Some(b) && b@ == sounds_done(*screen, *lang),
            *final(self) == (GuiSoundOptions {
                rects: final(self).rects,
                done: final(self).done,
                ..*old(self)
            }),
            marks_view(marks@) == volume_screen(*screen, percents@, *lang),
    {
        self.layout(screen, lang);
        let mut marks: Vec<Mark> = Vec::new();
        put(&mut marks, Shape::Background);
        put_text(
            &mut marks,
            TextAt::Centered { y: 15 * screen.scale },
            Ink::White,
            lang.tr("options.sounds.title"),
        );
        let ghost head = marks_view(marks@);
        let mut i: usize = 0;
        assert(head =~= head + sliders_marks(*screen, percents@, 0, *lang));
        while i < 9
            invariant
                i <= 9,
                percents@.len() == 9,
                self.rects@ == Seq::new(9, |i: int| slider_rect(*screen, i)),
                marks_view(marks@) == head + sliders_marks(*screen, percents@, i as int, *lang),
            decreases 9 - i,
        {
            let ghost before = marks_view(marks@);
            let rect = self.rects[i];
            put(&mut marks, Shape::Slider { rect, place: i });
            put_text(
                &mut marks,
                TextAt::Within { rect },
                Ink::White,
                slider_label(slider_of(i), percents[i], lang),
            );
            i += 1;
            assert(marks_view(marks@) =~= head + sliders_marks(
                *screen,
                percents@,
                i as int,
                *lang,
            ));
        }
        put_buttons(&mut marks, 1);
        assert(marks_view(marks@) =~= volume_screen(*screen, percents@, *lang));
        marks
    }

    /// A click there presses the button that leaves.
    pub open spec fn presses_done(self, x: int, y: int) -> bool {
        self.done matches Some(b) && b@.pressed(x, y)
    }

    /// Whether a click there presses the button; the sliders are none.
    pub fn clicks_button(&self, x: i32, y: i32) -> (yes: bool)
        ensures
            yes == self.presses_done(x as int, y as int),
    {
        match &self.done {
            Some(b) => b.clicked(x, y),
            None => false,
        }
    }

    /// Whether the game is drawn behind the screen.
    pub fn draws_over_hud(&self) -> (yes: bool)
        ensures
            yes == !self.from_main_menu,
    {
        !self.from_main_menu
    }
}

// ── The forms ─────────────────────────────────────────────────────────────

/// A form: its title, the name of each field above it, the fields and the buttons.
pub open spec fn form_marks(
    screen: Screen,
    title: Seq<char>,
    names: Seq<(int, Seq<char>)>,
    buttons: nat,
) -> Seq<MarkModel> {
    let s = screen.scale as int;
    let top = screen.height / 4;
    seq![
        MarkModel::Shape(Shape::Background),
        line(TextAt::Centered { y: (top - 24 * s) as i32 }, Ink::White, title),
    ] + Seq::new(
        names.len(),
        |i: int|
            line(
                TextAt::Shadowed {
                    x: field_rect(screen, 0).x,
                    y: (top + names[i].0 * s) as i32,
                },
                Ink::Gray,
                names[i].1,
            ),
    ) + Seq::new(names.len(), |i: int| MarkModel::Shape(Shape::Field(i as usize))) + all_buttons(
        buttons,
    )
}

impl GuiEditServer {
    /// Draw the form.
    pub fn draw(&mut self, screen: &Screen, lang: &Language) -> (marks: Vec<Mark>)
        requires
            screen.wf(),
        ensures
            final(self).name == (TextField {
                rect: field_rect(*screen, 12),
                ..old(self).name
            }),
            final(self).address == (TextField {
                rect: field_rect(*screen, 48),
                ..old(self).address
            }),
            buttons_view(final(self).buttons@) == edit_buttons(*screen, *lang),
            final(self).editing == old(self).editing,
            marks_view(marks@) == form_marks(
                *screen,
                if old(self).editing is Some {
                    lang.text_for("addServer.title"@)
                } else {
                    lang.text_for("fpsmaster.server.add"@)
                },
                seq![
                    (2, lang.text_for("addServer.enterName"@)),
                    (38, lang.text_for("addServer.enterIp"@)),
                ],
                final(self).buttons@.len(),
            ),
    {
        self.layout(screen, lang);
        let s: i32 = screen.scale;
        let top: i32 = screen.height / 4;
        let title = if self.editing.is_some() {
            lang.tr("addServer.title")
        } else {
            lang.tr("fpsmaster.server.add")
        };
        let ghost shown = title@;
        let mut marks: Vec<Mark> = Vec::new();
        put(&mut marks, Shape::Background);
        put_text(&mut marks, TextAt::Centered { y: top - 24 * s }, Ink::White, title);
        put_text(
            &mut marks,
            TextAt::Shadowed { x: self.name.rect.x, y: top + 2 * s },
            Ink::Gray,
            lang.tr("addServer.enterName"),
        );
        put_text(
            &mut marks,
            TextAt::Shadowed { x: self.address.rect.x, y: top + 38 * s },
            Ink::Gray,
            lang.tr("addServer.enterIp"),
        );
        put(&mut marks, Shape::Field(0));
        put(&mut marks, Shape::Field(1));
        put_buttons(&mut marks, self.buttons.len());
        assert(marks_view(marks@) =~= form_marks(
            *screen,
            shown,
            seq![
                (2, lang.text_for("addServer.enterName"@)),
                (38, lang.text_for("addServer.enterIp"@)),
            ],
            self.buttons@.len(),
        ));
        marks
    }

    /// Whether a click there presses a button.
    pub fn clicks_button(&self, x: i32, y: i32) -> (yes: bool)
        ensures
            yes == presses(self.buttons@, x as int, y as int),
    {
        any_clicked(&self.buttons, x, y)
    }

    /// The field that keys go to.
    pub open spec fn keys_go_to(self) -> Option<usize> {
        if self.name.focused {
            Some(0usize)
        } else if self.address.focused {
            Some(1usize)
        } else {
            None
        }
    }

    /// The field that keys go to: the name's before the address's.
    pub fn focused_text_input(&self) -> (field: Option<usize>)
        ensures
            field == self.keys_go_to(),
    {
        if self.name.focused {
            Some(0)
        } else if self.address.focused {
            Some(1)
        } else {
            None
        }
    }
}

impl GuiDirectConnect {
    /// Draw the form.
    pub fn draw(&mut self, screen: &Screen, lang: &Language) -> (marks: Vec<Mark>)
        requires
            screen.wf(),
        ensures
            final(self).address == (TextField {
                rect: field_rect(*screen, 16),
                ..old(self).address
            }),
            buttons_view(final(self).buttons@) == direct_buttons(*screen, *lang),
            marks_view(marks@) == form_marks(
                *screen,
                lang.text_for("selectServer.direct"@),
                seq![(6, lang.text_for("addServer.enterIp"@))],
                final(self).buttons@.len(),
            ),
    {
        self.layout(screen, lang);
        let s: i32 = screen.scale;
        let top: i32 = screen.height / 4;
        let mut marks: Vec<Mark> = Vec::new();
        put(&mut marks, Shape::Background);
        put_text(
            &mut marks,
            TextAt::Centered { y: top - 24 * s },
            Ink::White,
            lang.tr("selectServer.direct"),
        );
        put_text(
            &mut marks,
            TextAt::Shadowed { x: self.address.rect.x, y: top + 6 * s },
            Ink::Gray,
            lang.tr("addServer.enterIp"),
        );
        put(&mut marks, Shape::Field(0));
        put_buttons(&mut marks, self.buttons.len());
        assert(marks_view(marks@) =~= form_marks(
            *screen,
            lang.text_for("selectServer.direct"@),
            seq![(6, lang.text_for("addServer.enterIp"@))],
            self.buttons@.len(),
        ));
        marks
    }

    /// Whether a click there presses a button.
    pub fn clicks_button(&self, x: i32, y: i32) -> (yes: bool)
        ensures
            yes == presses(self.buttons@, x as int, y as int),
    {
        any_clicked(&self.buttons, x, y)
    }

    /// The field that keys go to.
    pub open spec fn keys_go_to(self) -> Option<usize> {
        if self.address.focused {
            Some(0usize)
        } else {
            None
        }
    }

    /// The field that keys go to.
    pub fn focused_text_input(&self) -> (field: Option<usize>)
        ensures
            field == self.keys_go_to(),
    {
        if self.address.focused {
            Some(0)
        } else {
            None
        }
    }
}

// ── The rest ──────────────────────────────────────────────────────────────

impl GuiMultiplayer {
    /// Whether a click there presses a button.
    pub fn clicks_button(&self, x: i32, y: i32) -> (yes: bool)
        ensures
            yes == presses(self.buttons@, x as int, y as int),
    {
        any_clicked(&self.buttons, x, y)
    }
}

impl GuiContainer {
    /// The game is drawn behind this screen.
    pub fn draws_over_hud(&self) -> (yes: bool)
        ensures
            yes,
    {
        true
    }
}

impl GuiChat {
    /// The line that is being written.
    pub fn chat_input(&self) -> (text: Option<&str>)
        ensures
            text matches Some(t) && t@ == self.input@,
    {
        Some(self.input.as_str())
    }

    /// The game is drawn behind this screen.
    pub fn draws_over_hud(&self) -> (yes: bool)
        ensures
            yes,
    {
        true
    }

    /// The world stays bright behind the chat.
    pub fn dims_world(&self) -> (yes: bool)
        ensures
            !yes,
    {
        false
    }
}

} // verus!
