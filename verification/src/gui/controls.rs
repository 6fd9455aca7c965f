//! The list of actions and the keys they are bound to.

use vstd::prelude::*;
use crate::chat::lang::Language;
use crate::text::{append, copy_text, joined};
use super::marks::{line, marks_view, put, put_all, put_text, Ink, Mark, MarkModel, Shape, TextAt};
use super::widgets::{
    button_at, half, halved, nothing, only, ButtonModel, GuiAction, GuiButton, Screen, ScreenKind,
    UiRect,
};

verus! {

/// The list of actions and their keys. An action is known by its place in the list
/// of all actions.
#[derive(Debug)]
pub struct GuiControls {
    /// The action that waits for a key.
    pub binding: Option<usize>,
    /// The first row that is shown.
    pub scroll: i32,
    /// The key buttons that were drawn last, with their actions.
    pub row_buttons: Vec<(usize, UiRect)>,
    pub done: Option<GuiButton>,
    pub from_main_menu: bool,
}

/// An action to list: what it is called, the name of its key, and whether another action
/// has the same.
#[derive(Debug)]
pub struct Binding {
    pub label: String,
    pub key_name: String,
    pub conflict: bool,
}

/// A row of the list.
#[derive(Debug)]
pub struct ControlRow {
    pub action: usize,
    pub conflict: bool,
    /// Where the action's label starts.
    pub label_x: i32,
    pub label_y: i32,
    pub key: GuiButton,
}

/// The text on a key button: a question while it waits for a key, and the key's name
/// in brackets where another action has it too.
pub open spec fn key_label(waiting: bool, b: Binding) -> Seq<char> {
    if waiting {
        "> ? <"@
    } else if b.conflict {
        "["@ + b.key_name@ + "]"@
    } else {
        b.key_name@
    }
}

fn key_text(waiting: bool, b: &Binding) -> (text: String)
    ensures
        text@ == key_label(waiting, *b),
{
    if waiting {
        copy_text("> ? <")
    } else if b.conflict {
        let mut text = joined("[", b.key_name.as_str());
        append(&mut text, "]");
        text
    } else {
        copy_text(b.key_name.as_str())
    }
}

/// A place for a row that leaves room for sums.
pub open spec fn place_fits(r: UiRect) -> bool {
    &&& 0 <= r.x <= 0x1000_0000
    &&& 0 <= r.y <= 0x1000_0000
    &&& 0 <= r.width <= 0x1000_0000
    &&& 0 <= r.height <= 0x1000_0000
}

/// Whether a row shows an action at a place: the label in the middle of its height,
/// the key button at its right end.
pub open spec fn is_row(
    row: ControlRow,
    action: int,
    binding: Option<usize>,
    b: Binding,
    place: UiRect,
    scale: int,
) -> bool {
    &&& row.action == action
    &&& row.conflict == b.conflict
    &&& row.label_x == place.x + 4 * scale
    &&& row.label_y == place.y + halved(place.height - 8 * scale)
    &&& row.key@ == button_at(
        place.x + place.width - 90 * scale,
        place.y as int,
        90 * scale,
        scale,
        key_label(binding == Some(action as usize), b),
    )
}

/// Whether rows are those of the first `n` places from `scroll` on; places past
/// either end of the list stay empty.
pub open spec fn are_control_rows(
    rows: Seq<ControlRow>,
    binding: Option<usize>,
    scroll: int,
    bindings: Seq<Binding>,
    places: Seq<UiRect>,
    scale: int,
    n: int,
) -> bool
    decreases n,
{
    if n <= 0 {
        rows.len() == 0
    } else {
        let action = scroll + n - 1;
        if 0 <= action < bindings.len() {
            &&& rows.len() > 0
            &&& is_row(rows.last(), action, binding, bindings[action], places[n - 1], scale)
            &&& are_control_rows(rows.drop_last(), binding, scroll, bindings, places, scale, n - 1)
        } else {
            are_control_rows(rows, binding, scroll, bindings, places, scale, n - 1)
        }
    }
}

/// The first `n` rows: the action's label, red where its key is another's too, and the
/// key button. The key buttons are the first of the screen.
pub open spec fn control_marks(rows: Seq<ControlRow>, bindings: Seq<Binding>, n: int) -> Seq<MarkModel>
    decreases n,
{
    if n <= 0 {
        Seq::empty()
    } else {
        let row = rows[n - 1];
        control_marks(rows, bindings, n - 1) + seq![
            line(
                TextAt::Shadowed { x: row.label_x, y: row.label_y },
                if row.conflict {
                    Ink::ConflictRed
                } else {
                    Ink::White
                },
                bindings[row.action as int].label@,
            ),
            MarkModel::Shape(Shape::Button((n - 1) as usize)),
        ]
    }
}

/// The furthest a list scrolls: so far that its last row is at the bottom.
pub open spec fn furthest(total: int, visible: int) -> int {
    if total > visible {
        total - visible
    } else {
        0
    }
}

/// The screen: the rows, the bar beside them, what to do while a key is waited for, and
/// the button that leaves, which is the last of the screen.
pub open spec fn controls_picture(
    waiting: bool,
    scroll: i32,
    rows: Seq<ControlRow>,
    bindings: Seq<Binding>,
    visible: int,
    screen: Screen,
    lang: Language,
) -> Seq<MarkModel> {
    let s = screen.scale as int;
    let total = bindings.len() as int;
    seq![
        MarkModel::Shape(Shape::Background),
        line(TextAt::Centered { y: (8 * s) as i32 }, Ink::White, lang.text_for("controls.title"@)),
        MarkModel::Shape(Shape::ListBackground),
    ] + control_marks(rows, bindings, rows.len() as int) + seq![
        MarkModel::Shape(
            Shape::Scrollbar {
                scroll,
                last: furthest(total, visible) as i32,
                total: total as i32,
            },
        ),
    ] + (if waiting {
        seq![
            line(
                TextAt::Halfway { width: screen.width, y: (screen.height - 40 * s) as i32 },
                Ink::ConflictRed,
                lang.text_for("fpsmaster.controls.bindHint"@),
            ),
        ]
    } else {
        Seq::empty()
    }) + seq![MarkModel::Shape(Shape::Button(rows.len() as usize))]
}

fn draw_rows(rows: &Vec<ControlRow>, bindings: &Vec<Binding>) -> (marks: Vec<Mark>)
    requires
        forall|i: int| 0 <= i < rows@.len() ==> (#[trigger] rows@[i]).action < bindings@.len(),
    ensures
        marks_view(marks@) == control_marks(rows@, bindings@, rows@.len() as int),
{
    let mut marks: Vec<Mark> = Vec::new();
    let mut i: usize = 0;
    assert(marks_view(marks@) =~= Seq::<MarkModel>::empty());
    while i < rows.len()
        invariant
            i <= rows@.len(),
            forall|i: int| 0 <= i < rows@.len() ==> (#[trigger] rows@[i]).action < bindings@.len(),
            marks_view(marks@) == control_marks(rows@, bindings@, i as int),
        decreases rows@.len() - i,
    {
        let row = &rows[i];
        put_text(
            &mut marks,
            TextAt::Shadowed { x: row.label_x, y: row.label_y },
            if row.conflict {
                Ink::ConflictRed
            } else {
                Ink::White
            },
            copy_text(bindings[row.action].label.as_str()),
        );
        put(&mut marks, Shape::Button(i));
        i += 1;
        assert(marks_view(marks@) =~= control_marks(rows@, bindings@, i as int));
    }
    marks
}

/// The button that leaves the list.
pub open spec fn done_button(screen: Screen, lang: Language) -> ButtonModel {
    let s = screen.scale as int;
    button_at(
        halved(screen.width - 200 * s),
        screen.height - 28 * s,
        200 * s,
        s,
        lang.text_for("gui.done"@),
    )
}

/// The places of key buttons.
pub open spec fn key_places(rows: Seq<ControlRow>) -> Seq<(usize, UiRect)> {
    Seq::new(rows.len(), |i: int| (rows[i].action, rows[i].key.rect))
}

/// The first key button at a pixel, from the `i`-th on.
pub open spec fn action_from(rows: Seq<(usize, UiRect)>, x: int, y: int, i: int) -> Option<usize>
    decreases rows.len() - i,
{
    if i < 0 || i >= rows.len() {
        None
    } else if rows[i].1.spec_contains(x, y) {
        Some(rows[i].0)
    } else {
        action_from(rows, x, y, i + 1)
    }
}

/// The actions that leave a settings screen.
pub open spec fn leaves_settings(from_main_menu: bool) -> Seq<GuiAction> {
    seq![
        GuiAction::SaveSettings,
        GuiAction::SetScreen(ScreenKind::Options { from_main_menu }),
    ]
}

/// The first row shown after the wheel turned by a step; the list starts at its first.
pub open spec fn wheeled(scroll: int, step: int) -> int {
    if scroll - step > 0 {
        scroll - step
    } else {
        0
    }
}

/// What a click does: it waits for the key of the action that is clicked, or stops waiting,
/// or leaves.
pub open spec fn controls_clicked(
    before: GuiControls,
    x: int,
    y: int,
    after: GuiControls,
    actions: Seq<GuiAction>,
) -> bool {
    let leaves = before.binding is None && before.done is Some && before.done->0@.pressed(x, y);
    &&& actions == if leaves {
        leaves_settings(before.from_main_menu)
    } else {
        Seq::<GuiAction>::empty()
    }
    &&& after.binding == if before.binding is Some || leaves {
        None
    } else {
        action_from(before.row_buttons@, x, y, 0)
    }
    &&& after == (GuiControls { binding: after.binding, ..before })
}

/// What a key does: while one is waited for it is bound to the action, unless it is escape;
/// else escape leaves.
pub open spec fn controls_key(
    before: GuiControls,
    escape: bool,
    after: GuiControls,
    bound: Option<usize>,
    actions: Seq<GuiAction>,
) -> bool {
    &&& bound == if escape {
        None
    } else {
        before.binding
    }
    &&& actions == if before.binding is Some {
        if escape {
            Seq::<GuiAction>::empty()
        } else {
            seq![GuiAction::SaveSettings]
        }
    } else if escape {
        leaves_settings(before.from_main_menu)
    } else {
        Seq::<GuiAction>::empty()
    }
    &&& after == (GuiControls { binding: None, ..before })
}

/// The actions that leave a settings screen.
pub fn leave_settings(from_main_menu: bool) -> (actions: Vec<GuiAction>)
    ensures
        actions@ == leaves_settings(from_main_menu),
{
    let mut actions: Vec<GuiAction> = Vec::new();
    actions.push(GuiAction::SaveSettings);
    actions.push(GuiAction::SetScreen(ScreenKind::Options { from_main_menu }));
    assert(actions@ =~= leaves_settings(from_main_menu));
    actions
}

impl GuiControls {
    pub fn new(from_main_menu: bool) -> (screen: GuiControls)
        ensures
            screen.binding is None,
            screen.scroll == 0,
            screen.row_buttons@ == Seq::<(usize, UiRect)>::empty(),
            screen.done is None,
            screen.from_main_menu == from_main_menu,
    {
        GuiControls {
            binding: None,
            scroll: 0,
            row_buttons: Vec::new(),
            done: None,
            from_main_menu,
        }
    }

    /// The furthest the list scrolls: so far that its last row is at the bottom.
    pub fn max_scroll(&self, total: i32, visible: i32) -> (n: i32)
        requires
            0 <= total,
            0 <= visible,
        ensures
            n == furthest(total as int, visible as int),
    {
        if total > visible {
            total - visible
        } else {
            0
        }
    }

    /// Lay out the rows that have room, given a place for each, and the button that
    /// leaves the list.
    fn layout(
        &mut self,
        bindings: &Vec<Binding>,
        places: &Vec<UiRect>,
        screen: &Screen,
        lang: &Language,
    ) -> (rows: Vec<ControlRow>)
        requires
            screen.wf(),
            0 <= old(self).scroll <= 0x4000_0000,
            places@.len() <= 0x1000_0000,
            bindings@.len() <= i32::MAX,
            forall|i: int| 0 <= i < places@.len() ==> place_fits(#[trigger] places@[i]),
        ensures
            are_control_rows(
                rows@,
                old(self).binding,
                old(self).scroll as int,
                bindings@,
                places@,
                screen.scale as int,
                places@.len() as int,
            ),
            forall|i: int| 0 <= i < rows@.len() ==> (#[trigger] rows@[i]).action < bindings@.len(),
            final(self).row_buttons@ == key_places(rows@),
            final(self).done matches Some(b) && b@ == done_button(*screen, *lang),
            *final(self) == (GuiControls {
                row_buttons: final(self).row_buttons,
                done: final(self).done,
                ..*old(self)
            }),
    {
        let s: i32 = screen.scale;
        let mut rows: Vec<ControlRow> = Vec::new();
        let mut row_buttons: Vec<(usize, UiRect)> = Vec::new();
        let mut i: usize = 0;
        assert(key_places(rows@) =~= row_buttons@);
        while i < places.len()
            invariant
                *self == *old(self),
                screen.wf(),
                s == screen.scale,
                0 <= self.scroll <= 0x4000_0000,
                places@.len() <= 0x1000_0000,
                bindings@.len() <= i32::MAX,
                forall|i: int| 0 <= i < places@.len() ==> place_fits(#[trigger] places@[i]),
                i <= places@.len(),
                row_buttons@ == key_places(rows@),
                forall|i: int|
                    0 <= i < rows@.len() ==> (#[trigger] rows@[i]).action < bindings@.len(),
                are_control_rows(
                    rows@,
                    self.binding,
                    self.scroll as int,
                    bindings@,
                    places@,
                    s as int,
                    i as int,
                ),
            decreases places@.len() - i,
        {
            let action: i64 = self.scroll as i64 + i as i64;
            if action < bindings.len() as i64 {
                let action: usize = action as usize;
                let place = places[i];
                let b = &bindings[action];
                let waiting = match self.binding {
                    Some(a) => a == action,
                    None => false,
                };
                let key = GuiButton::at_px(
                    place.x + place.width - 90 * s,
                    place.y,
                    90 * s,
                    s,
                    key_text(waiting, b),
                );
                let ghost before = rows@;
                row_buttons.push((action, key.rect));
                rows.push(
                    ControlRow {
                        action,
                        conflict: b.conflict,
                        label_x: place.x + 4 * s,
                        label_y: place.y + half(place.height - 8 * s),
                        key,
                    },
                );
                assert(rows@.drop_last() =~= before);
                assert(row_buttons@ =~= key_places(rows@));
            }
            i += 1;
        }
        self.row_buttons = row_buttons;
        self.done = Some(
            GuiButton::at_px(
                half(screen.width - 200 * s),
                screen.height - 28 * s,
                200 * s,
                s,
                lang.tr("gui.done"),
            ),
        );
        rows
    }

    /// Draw the list: put the rows that have room and the button that leaves in place,
    /// given a place for each row, and say what is drawn.
    pub fn draw(
        &mut self,
        bindings: &Vec<Binding>,
        places: &Vec<UiRect>,
        screen: &Screen,
        lang: &Language,
    ) -> (picture: (Vec<ControlRow>, Vec<Mark>))
        requires
            screen.wf(),
            0 <= old(self).scroll <= 0x4000_0000,
            places@.len() <= 0x1000_0000,
            bindings@.len() <= i32::MAX,
            forall|i: int| 0 <= i < places@.len() ==> place_fits(#[trigger] places@[i]),
        ensures
            are_control_rows(
                picture.0@,
                old(self).binding,
                old(self).scroll as int,
                bindings@,
                places@,
                screen.scale as int,
                places@.len() as int,
            ),
            marks_view(picture.1@) == controls_picture(
                old(self).binding is Some,
                old(self).scroll,
                picture.0@,
                bindings@,
                places@.len() as int,
                *screen,
                *lang,
            ),
            final(self).row_buttons@ == key_places(picture.0@),
            final(self).done matches Some(b) && b@ == done_button(*screen, *lang),
            *final(self) == (GuiControls {
                row_buttons: final(self).row_buttons,
                done: final(self).done,
                ..*old(self)
            }),
    {
        let s: i32 = screen.scale;
        let rows = self.layout(bindings, places, screen, lang);
        let mut marks: Vec<Mark> = Vec::new();
        put(&mut marks, Shape::Background);
        put_text(&mut marks, TextAt::Centered { y: 8 * s }, Ink::White, lang.tr("controls.title"));
        put(&mut marks, Shape::ListBackground);
        put_all(&mut marks, draw_rows(&rows, bindings));
        let total: i32 = bindings.len() as i32;
        let last: i32 = self.max_scroll(total, places.len() as i32);
        put(&mut marks, Shape::Scrollbar { scroll: self.scroll, last, total });
        if self.binding.is_some() {
            put_text(
                &mut marks,
                TextAt::Halfway { width: screen.width, y: screen.height - 40 * s },
                Ink::ConflictRed,
                lang.tr("fpsmaster.controls.bindHint"),
            );
        }
        put(&mut marks, Shape::Button(rows.len()));
        assert(marks_view(marks@) =~= controls_picture(
            old(self).binding is Some,
            old(self).scroll,
            rows@,
            bindings@,
            places@.len() as int,
            *screen,
            *lang,
        ));
        (rows, marks)
    }

    /// A click there presses a button: the one that leaves, or that of a row.
    pub open spec fn presses_one(self, x: int, y: int) -> bool {
        ||| self.done matches Some(b) && b@.pressed(x, y)
        ||| action_from(self.row_buttons@, x, y, 0) is Some
    }

    /// Whether a click there presses a button.
    pub fn clicks_button(&self, x: i32, y: i32) -> (yes: bool)
        ensures
            yes == self.presses_one(x as int, y as int),
    {
        let leaves = match &self.done {
            Some(b) => b.clicked(x, y),
            None => false,
        };
        leaves || self.action_at(x, y).is_some()
    }

    /// Whether the game is drawn behind the screen.
    pub fn draws_over_hud(&self) -> (yes: bool)
        ensures
            yes == !self.from_main_menu,
    {
        !self.from_main_menu
    }

    fn action_at(&self, x: i32, y: i32) -> (action: Option<usize>)
        ensures
            action == action_from(self.row_buttons@, x as int, y as int, 0),
    {
        let mut i: usize = 0;
        while i < self.row_buttons.len()
            invariant
                i <= self.row_buttons@.len(),
                action_from(self.row_buttons@, x as int, y as int, 0) == action_from(
                    self.row_buttons@,
                    x as int,
                    y as int,
                    i as int,
                ),
            decreases self.row_buttons@.len() - i,
        {
            if self.row_buttons[i].1.contains(x, y) {
                return Some(self.row_buttons[i].0);
            }
            i += 1;
        }
        None
    }

    /// A click: while a key is waited for it ends that; else it leaves the list or
    /// starts waiting for a key.
    pub fn mouse_clicked(&mut self, x: i32, y: i32) -> (actions: Vec<GuiAction>)
        ensures
            controls_clicked(*old(self), x as int, y as int, *final(self), actions@),
    {
        if self.binding.is_some() {
            self.binding = None;
            return nothing();
        }
        let leaves = match &self.done {
            Some(b) => b.clicked(x, y),
            None => false,
        };
        if leaves {
            return leave_settings(self.from_main_menu);
        }
        self.binding = self.action_at(x, y);
        nothing()
    }

    /// The wheel turned by a step, up or down.
    pub fn mouse_scrolled(&mut self, step: i32)
        requires
            -1 <= step <= 1,
            old(self).scroll < i32::MAX,
        ensures
            final(self).scroll == wheeled(old(self).scroll as int, step as int),
            *final(self) == (GuiControls { scroll: final(self).scroll, ..*old(self) }),
    {
        let to: i64 = self.scroll as i64 - step as i64;
        self.scroll = if to > 0 {
            to as i32
        } else {
            0
        };
    }

    /// A key. While one is waited for it is bound to the action, which is returned,
    /// unless it is escape, which ends the waiting; else escape leaves the list.
    pub fn key_pressed(&mut self, escape: bool) -> (done: (Option<usize>, Vec<GuiAction>))
        ensures
            controls_key(*old(self), escape, *final(self), done.0, done.1@),
    {
        match self.binding {
            Some(action) => {
                self.binding = None;
                if escape {
                    (None, nothing())
                } else {
                    (Some(action), only(GuiAction::SaveSettings))
                }
            },
            None => if escape {
                (None, leave_settings(self.from_main_menu))
            } else {
                (None, nothing())
            },
        }
    }
}

} // verus!
