//! The volume sliders.

use vstd::prelude::*;
use crate::chat::lang::Language;
use crate::text::{append, append_number, decimal};
use super::controls::{leave_settings, leaves_settings};
use super::widgets::{
    button_at, nothing, only, ButtonModel, GuiAction, GuiButton, GuiKey, Screen, UiRect,
    BUTTON_HEIGHT,
};

verus! {

/// A volume.
#[derive(Debug, Clone, Copy, PartialEq, Eq, Structural)]
pub enum Slider {
    Master,
    Music,
    Record,
    Weather,
    Block,
    Hostile,
    Neutral,
    Player,
    Ambient,
}

/// The volume of a place in the grid; the first is above it.
pub open spec fn slider_at_place(i: int) -> Slider {
    if i == 0 {
        Slider::Master
    } else if i == 1 {
        Slider::Music
    } else if i == 2 {
        Slider::Record
    } else if i == 3 {
        Slider::Weather
    } else if i == 4 {
        Slider::Block
    } else if i == 5 {
        Slider::Hostile
    } else if i == 6 {
        Slider::Neutral
    } else if i == 7 {
        Slider::Player
    } else {
        Slider::Ambient
    }
}

impl Slider {
    /// The place of a volume: 0 above the grid, then from left to right and down.
    pub open spec fn place(self) -> int {
        match self {
            Slider::Master => 0,
            Slider::Music => 1,
            Slider::Record => 2,
            Slider::Weather => 3,
            Slider::Block => 4,
            Slider::Hostile => 5,
            Slider::Neutral => 6,
            Slider::Player => 7,
            Slider::Ambient => 8,
        }
    }

    /// The key of a volume's name.
    pub open spec fn key(self) -> &'static str {
        match self {
            Slider::Master => "soundCategory.master",
            Slider::Music => "soundCategory.music",
            Slider::Record => "soundCategory.record",
            Slider::Weather => "soundCategory.weather",
            Slider::Block => "soundCategory.block",
            Slider::Hostile => "soundCategory.hostile",
            Slider::Neutral => "soundCategory.neutral",
            Slider::Player => "soundCategory.player",
            Slider::Ambient => "soundCategory.ambient",
        }
    }

    /// The key of a volume's name.
    pub fn label_key(self) -> (key: &'static str)
        ensures
            key@ == self.key()@,
    {
        match self {
            Slider::Master => "soundCategory.master",
            Slider::Music => "soundCategory.music",
            Slider::Record => "soundCategory.record",
            Slider::Weather => "soundCategory.weather",
            Slider::Block => "soundCategory.block",
            Slider::Hostile => "soundCategory.hostile",
            Slider::Neutral => "soundCategory.neutral",
            Slider::Player => "soundCategory.player",
            Slider::Ambient => "soundCategory.ambient",
        }
    }

    fn index(self) -> (i: usize)
        ensures
            i == self.place(),
    {
        match self {
            Slider::Master => 0,
            Slider::Music => 1,
            Slider::Record => 2,
            Slider::Weather => 3,
            Slider::Block => 4,
            Slider::Hostile => 5,
            Slider::Neutral => 6,
            Slider::Player => 7,
            Slider::Ambient => 8,
        }
    }
}

/// The slider at a place.
pub fn slider_of(i: usize) -> (s: Slider)
    ensures
        s == slider_at_place(i as int),
{
    match i {
        0 => Slider::Master,
        1 => Slider::Music,
        2 => Slider::Record,
        3 => Slider::Weather,
        4 => Slider::Block,
        5 => Slider::Hostile,
        6 => Slider::Neutral,
        7 => Slider::Player,
        _ => Slider::Ambient,
    }
}

/// Each volume has a place, and each place a volume.
pub proof fn law_sliders_and_places_pair_up(s: Slider, i: int)
    requires
        0 <= i < 9,
    ensures
        slider_at_place(s.place()) == s,
        slider_at_place(i).place() == i,
        0 <= s.place() < 9,
{
}

/// The label of a slider: its name with the percentage, or that it is off.
pub open spec fn label_text(slider: Slider, percent: Option<i32>, lang: Language) -> Seq<char> {
    lang.text_for(slider.key()@) + ": "@ + match percent {
        Some(n) => decimal(n as int) + "%"@,
        None => lang.text_for("options.off"@),
    }
}

/// The label of a slider; a volume that is off has no percentage.
pub fn slider_label(slider: Slider, percent: Option<i32>, lang: &Language) -> (text: String)
    ensures
        text@ == label_text(slider, percent, *lang),
{
    let mut text = lang.tr(slider.label_key());
    append(&mut text, ": ");
    match percent {
        Some(n) => {
            let ghost start = text@;
            append_number(&mut text, n as i64);
            append(&mut text, "%");
            assert(text@ =~= start + (decimal(n as int) + "%"@));
        },
        None => append(&mut text, lang.tr("options.off").as_str()),
    }
    text
}

/// The rectangle of a slider: the first spans both columns, the others fill the grid
/// from its second row on.
pub open spec fn slider_rect(screen: Screen, i: int) -> UiRect {
    let s = screen.scale as int;
    let left = screen.width / 2 - 155 * s;
    let top = screen.height / 6 - 12 * s;
    if i == 0 {
        UiRect {
            x: left as i32,
            y: top as i32,
            width: (310 * s) as i32,
            height: (BUTTON_HEIGHT * s) as i32,
        }
    } else {
        UiRect {
            x: if i % 2 == 1 {
                left as i32
            } else {
                (screen.width / 2 + 5 * s) as i32
            },
            y: (top + 24 * s * ((i + 1) / 2)) as i32,
            width: (150 * s) as i32,
            height: (BUTTON_HEIGHT * s) as i32,
        }
    }
}

/// The button that leaves the screen.
pub open spec fn sounds_done(screen: Screen, lang: Language) -> ButtonModel {
    let s = screen.scale as int;
    button_at(
        screen.width / 2 - 100 * s,
        screen.height / 6 + 168 * s,
        200 * s,
        s,
        lang.text_for("gui.done"@),
    )
}

/// The first slider at a pixel, from the `i`-th on.
pub open spec fn slider_from(rects: Seq<UiRect>, x: int, y: int, i: int) -> Option<Slider>
    decreases rects.len() - i,
{
    if i < 0 || i >= rects.len() {
        None
    } else if rects[i].spec_contains(x, y) {
        Some(slider_at_place(i))
    } else {
        slider_from(rects, x, y, i + 1)
    }
}

/// The volume screen.
#[derive(Debug)]
pub struct GuiSoundOptions {
    /// The rectangles of the sliders, in the order of their places.
    pub rects: Vec<UiRect>,
    pub done: Option<GuiButton>,
    /// The slider that is being dragged.
    pub dragging: Option<Slider>,
    pub from_main_menu: bool,
}

/// What a click does: it takes hold of a slider, or leaves.
pub open spec fn sounds_clicked(
    before: GuiSoundOptions,
    x: int,
    y: int,
    after: GuiSoundOptions,
    actions: Seq<GuiAction>,
) -> bool {
    let slider = slider_from(before.rects@, x, y, 0);
    &&& after.dragging == if slider is Some {
        slider
    } else {
        before.dragging
    }
    &&& actions == if slider is None && before.done is Some && before.done->0@.pressed(x, y) {
        leaves_settings(before.from_main_menu)
    } else {
        Seq::<GuiAction>::empty()
    }
    &&& after == (GuiSoundOptions { dragging: after.dragging, ..before })
}

/// What letting go does: a slider that was held is saved.
pub open spec fn sounds_released(
    before: GuiSoundOptions,
    after: GuiSoundOptions,
    actions: Seq<GuiAction>,
) -> bool {
    &&& actions == if before.dragging is Some {
        seq![GuiAction::SaveSettings]
    } else {
        Seq::<GuiAction>::empty()
    }
    &&& after == (GuiSoundOptions { dragging: None, ..before })
}

impl GuiSoundOptions {
    pub fn new(from_main_menu: bool) -> (screen: GuiSoundOptions)
        ensures
            screen.rects@ == Seq::<UiRect>::empty(),
            screen.done is None,
            screen.dragging is None,
            screen.from_main_menu == from_main_menu,
    {
        GuiSoundOptions { rects: Vec::new(), done: None, dragging: None, from_main_menu }
    }

    /// Put the sliders and the button in place.
    pub fn layout(&mut self, screen: &Screen, lang: &Language)
        requires
            screen.wf(),
        ensures
            final(self).rects@ == Seq::new(9, |i: int| slider_rect(*screen, i)),
            final(self).done matches Some(b) && b@ == sounds_done(*screen, *lang),
            *final(self) == (GuiSoundOptions {
                rects: final(self).rects,
                done: final(self).done,
                ..*old(self)
            }),
    {
        let s: i32 = screen.scale;
        let left: i32 = screen.width / 2 - 155 * s;
        let right: i32 = screen.width / 2 + 5 * s;
        let top: i32 = screen.height / 6 - 12 * s;
        let height: i32 = BUTTON_HEIGHT * s;
        let mut rects: Vec<UiRect> = Vec::new();
        rects.push(UiRect { x: left, y: top, width: 310 * s, height });
        let mut i: usize = 1;
        while i < 9
            invariant
                1 <= i <= 9,
                screen.wf(),
                s == screen.scale,
                left == screen.width / 2 - 155 * s,
                right == screen.width / 2 + 5 * s,
                top == screen.height / 6 - 12 * s,
                height == BUTTON_HEIGHT * s,
                rects@.len() == i,
                forall|j: int| 0 <= j < i ==> #[trigger] rects@[j] == slider_rect(*screen, j),
            decreases 9 - i,
        {
            let row: i32 = ((i + 1) / 2) as i32;
            assert(0 <= 24 * s * row <= 24 * s * 5) by (nonlinear_arith)
                requires
                    0 <= row <= 5,
                    0 <= s,
            ;
            rects.push(
                UiRect {
                    x: if i % 2 == 1 {
                        left
                    } else {
                        right
                    },
                    y: top + 24 * s * row,
                    width: 150 * s,
                    height,
                },
            );
            i += 1;
        }
        self.rects = rects;
        assert(self.rects@ =~= Seq::new(9, |i: int| slider_rect(*screen, i)));
        self.done = Some(
            GuiButton::at_px(
                screen.width / 2 - 100 * s,
                screen.height / 6 + 168 * s,
                200 * s,
                s,
                lang.tr("gui.done"),
            ),
        );
    }

    /// The slider at a pixel.
    pub fn slider_at(&self, x: i32, y: i32) -> (slider: Option<Slider>)
        ensures
            slider == slider_from(self.rects@, x as int, y as int, 0),
    {
        let mut i: usize = 0;
        while i < self.rects.len()
            invariant
                i <= self.rects@.len(),
                slider_from(self.rects@, x as int, y as int, 0) == slider_from(
                    self.rects@,
                    x as int,
                    y as int,
                    i as int,
                ),
            decreases self.rects@.len() - i,
        {
            if self.rects[i].contains(x, y) {
                return Some(slider_of(i));
            }
            i += 1;
        }
        None
    }

    /// The rectangle of a slider.
    pub open spec fn place_of(self, slider: Slider) -> UiRect {
        if slider.place() < self.rects@.len() {
            self.rects@[slider.place()]
        } else {
            UiRect { x: 0, y: 0, width: 0, height: 0 }
        }
    }

    /// The rectangle of a slider; nothing before the screen was laid out.
    pub fn rect_for(&self, slider: Slider) -> (rect: UiRect)
        ensures
            rect == self.place_of(slider),
    {
        let i = slider.index();
        if i < self.rects.len() {
            self.rects[i]
        } else {
            UiRect { x: 0, y: 0, width: 0, height: 0 }
        }
    }

    /// A click: it takes hold of a slider, or leaves.
    pub fn mouse_clicked(&mut self, x: i32, y: i32) -> (actions: Vec<GuiAction>)
        ensures
            sounds_clicked(*old(self), x as int, y as int, *final(self), actions@),
    {
        if let Some(slider) = self.slider_at(x, y) {
            self.dragging = Some(slider);
            return nothing();
        }
        let leaves = match &self.done {
            Some(b) => b.clicked(x, y),
            None => false,
        };
        if leaves {
            leave_settings(self.from_main_menu)
        } else {
            nothing()
        }
    }

    /// The button was let go: a drag ends, and the volumes are kept.
    pub fn mouse_released(&mut self) -> (actions: Vec<GuiAction>)
        ensures
            sounds_released(*old(self), *final(self), actions@),
    {
        let dragged = self.dragging.is_some();
        self.dragging = None;
        if dragged {
            only(GuiAction::SaveSettings)
        } else {
            nothing()
        }
    }

    /// What a key does.
    pub open spec fn key_does(self, key: GuiKey) -> Seq<GuiAction> {
        if key == GuiKey::Escape {
            leaves_settings(self.from_main_menu)
        } else {
            Seq::<GuiAction>::empty()
        }
    }

    /// A key: escape leaves.
    pub fn key_pressed(&self, key: GuiKey) -> (actions: Vec<GuiAction>)
        ensures
            actions@ == self.key_does(key),
    {
        if key == GuiKey::Escape {
            leave_settings(self.from_main_menu)
        } else {
            nothing()
        }
    }
}

/// No two sliders overlap.
pub proof fn law_sliders_are_apart(screen: Screen, i: int, j: int)
    requires
        screen.wf(),
        0 <= i < j < 9,
    ensures
        slider_rect(screen, i).apart(slider_rect(screen, j)),
{
    let s = screen.scale as int;
    let p = (i + 1) / 2;
    let q = (j + 1) / 2;
    assert(0 <= 24 * s * p <= 120 * s && 0 <= 24 * s * q <= 120 * s) by (nonlinear_arith)
        requires
            0 <= p <= 4,
            0 <= q <= 4,
            0 <= s,
    ;
    if i > 0 && i % 2 == j % 2 {
        assert(24 * s * p + 24 * s <= 24 * s * q) by (nonlinear_arith)
            requires
                p + 1 <= q,
                0 <= s,
        ;
    }
    if i == 0 {
        assert(24 * s <= 24 * s * q) by (nonlinear_arith)
            requires
                1 <= q,
                0 <= s,
        ;
    }
}

} // verus!
