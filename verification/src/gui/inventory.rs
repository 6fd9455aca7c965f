//! The window screen: where the window is, which slot the pointer is over, and what
//! clicks and keys do to it.

use vstd::prelude::*;
use crate::container::click::click_defined;
use crate::container::state::{Container, Slot, WindowKind};
use crate::game::windows::{drag_reported, window_clicked, Windows};
use crate::packets::ServerboundPacket;
use crate::text::{append, append_number, decimal, number_text};
use super::merchant::{button_at, offer_after, pressed_button, window_fits, TradeButton};
use super::widgets::{half, halved, GuiKey, Screen};

verus! {

/// How far the player's window moves right for the effects beside it, in GUI pixels.
pub const EFFECT_PANEL_SHIFT: i32 = 60;

/// GUI pixels to a block of the player preview.
pub const PREVIEW_SCALE: i32 = 30;

/// Two clicks on a slot within this many milliseconds collect a stack.
pub const DOUBLE_CLICK: u64 = 250;

/// No slot.
pub const OUTSIDE: i16 = -999;

// ── Places ────────────────────────────────────────────────────────────────

/// Whether the active effects are shown beside a window: only beside the player's.
pub open spec fn panel_shown(container: Container, has_effects: bool) -> bool {
    container.kind == WindowKind::Player && has_effects
}

/// Whether the active effects are shown beside a window.
pub fn effect_panel_shown(container: &Container, has_effects: bool) -> (yes: bool)
    ensures
        yes == panel_shown(*container, has_effects),
{
    container.kind == WindowKind::Player && has_effects
}

/// A window size that leaves room for sums.
pub open spec fn size_fits(container: Container) -> bool {
    0 <= container.x_size <= 1024 && 0 <= container.y_size <= 1024
}

/// Where a window starts: in the middle of the screen, moved right for the effects.
pub open spec fn origin_of(screen: Screen, container: Container, has_effects: bool) -> (int, int) {
    let s = screen.scale as int;
    (
        halved(screen.width - container.x_size * s) + if panel_shown(container, has_effects) {
            EFFECT_PANEL_SHIFT * s
        } else {
            0
        },
        halved(screen.height - container.y_size * s),
    )
}

proof fn lemma_scaled(n: int, scale: int)
    requires
        0 <= n <= 1024,
        0 <= scale <= 0x1_0000,
    ensures
        0 <= n * scale <= 0x400_0000,
{
    assert(0 <= n * scale <= 0x400_0000) by (nonlinear_arith)
        requires
            0 <= n <= 1024,
            0 <= scale <= 0x1_0000,
    ;
}

/// Where a window starts.
pub fn window_origin(screen: &Screen, container: &Container, has_effects: bool) -> (origin: (
    i32,
    i32,
))
    requires
        screen.wf(),
        size_fits(*container),
    ensures
        (origin.0 as int, origin.1 as int) == origin_of(*screen, *container, has_effects),
        window_fits(origin.0 as int, origin.1 as int, screen.scale as int),
{
    let s: i32 = screen.scale;
    proof {
        lemma_scaled(container.x_size as int, s as int);
        lemma_scaled(container.y_size as int, s as int);
    }
    let mut x: i32 = half(screen.width - container.x_size * s);
    let y: i32 = half(screen.height - container.y_size * s);
    if effect_panel_shown(container, has_effects) {
        x = x + EFFECT_PANEL_SHIFT * s;
    }
    (x, y)
}

/// The window moves right by the same for every size of the screen when effects come,
/// and only the player's window does.
pub proof fn law_effects_shift_the_window(screen: Screen, container: Container)
    ensures
        ({
            let (x0, y0) = origin_of(screen, container, false);
            let (x1, y1) = origin_of(screen, container, true);
            &&& y1 == y0
            &&& x1 - x0 == if container.kind == WindowKind::Player {
                60 * screen.scale
            } else {
                0
            }
        }),
{
}

/// Where the player is shown: the clipped box, the feet and the pixels to a block.
#[derive(Debug, Clone, Copy, PartialEq, Eq, Structural)]
pub struct Preview {
    pub x: u32,
    pub y: u32,
    pub width: u32,
    pub height: u32,
    pub feet_x: i32,
    pub feet_y: i32,
    pub pixels_per_block: i32,
}

/// A number, or zero for the negative.
pub open spec fn at_least_zero(n: int) -> int {
    if n > 0 {
        n
    } else {
        0
    }
}

/// Where the player is shown in a window.
pub open spec fn preview_of(px: int, py: int, scale: int) -> Preview {
    Preview {
        x: at_least_zero(px + 26 * scale) as u32,
        y: at_least_zero(py + 8 * scale) as u32,
        width: (49 * scale) as u32,
        height: (70 * scale) as u32,
        feet_x: (px + 51 * scale) as i32,
        feet_y: (py + 75 * scale) as i32,
        pixels_per_block: (PREVIEW_SCALE * scale) as i32,
    }
}

fn not_below_zero(n: i32) -> (m: u32)
    ensures
        m == at_least_zero(n as int),
{
    if n > 0 {
        n as u32
    } else {
        0
    }
}

/// Where the player is shown in a window.
pub fn preview_layout(origin: (i32, i32), scale: i32) -> (p: Preview)
    requires
        window_fits(origin.0 as int, origin.1 as int, scale as int),
    ensures
        p == preview_of(origin.0 as int, origin.1 as int, scale as int),
{
    Preview {
        x: not_below_zero(origin.0 + 26 * scale),
        y: not_below_zero(origin.1 + 8 * scale),
        width: not_below_zero(49 * scale),
        height: not_below_zero(70 * scale),
        feet_x: origin.0 + 51 * scale,
        feet_y: origin.1 + 75 * scale,
        pixels_per_block: PREVIEW_SCALE * scale,
    }
}

/// Where the box starts on the screen, the player fits under its top, also with the
/// tallest of what is worn on the head, which ends 67 thirty-seconds of a block above
/// the feet.
pub proof fn law_the_player_fits_the_preview(px: int, py: int, scale: int)
    requires
        window_fits(px, py, scale),
        0 <= py + 8 * scale,
    ensures
        ({
            let p = preview_of(px, py, scale);
            p.y * 32 <= p.feet_y * 32 - 67 * p.pixels_per_block
        }),
{
}

// ── The slot under the pointer ────────────────────────────────────────────

/// Whether a pixel is on a slot.
pub open spec fn on_slot(slot: Slot, x: int, y: int, px: int, py: int, scale: int) -> bool {
    let cell_x = px + slot.x * scale;
    let cell_y = py + slot.y * scale;
    cell_x <= x < cell_x + 16 * scale && cell_y <= y < cell_y + 16 * scale
}

/// The first slot at a pixel, from the `i`-th on.
pub open spec fn slot_from(
    slots: Seq<Slot>,
    x: int,
    y: int,
    px: int,
    py: int,
    scale: int,
    i: int,
) -> Option<i16>
    decreases slots.len() - i,
{
    if i < 0 || i >= slots.len() {
        None
    } else if on_slot(slots[i], x, y, px, py, scale) {
        Some(i as i16)
    } else {
        slot_from(slots, x, y, px, py, scale, i + 1)
    }
}

/// The window screen.
#[derive(Debug)]
pub struct GuiContainer {
    /// Where the window was drawn last, and how large.
    pub px: i32,
    pub py: i32,
    pub scale: i32,
    /// The slot clicked last, and when, in milliseconds.
    pub last_click_slot: i16,
    pub last_click_at: Option<u64>,
}

/// What a click or a key asks for.
#[allow(inconsistent_fields)]
#[derive(Debug, Clone, Copy, PartialEq, Eq, Structural)]
pub enum WindowInput {
    Ignore,
    SelectTrade(usize),
    Click { slot: i16, button: i8, mode: i8 },
    /// Start a drag, on a slot if one is there.
    BeginDrag { button: i8, slot: Option<i16> },
    PaintDrag(i16),
    CommitDrag,
    /// Give up the drag and click instead.
    ClickInstead { slot: i16, button: i8 },
    Close,
}

impl GuiContainer {
    pub open spec fn wf(&self) -> bool {
        window_fits(self.px as int, self.py as int, self.scale as int)
    }

    /// The slot of a window at a pixel; none before the window was drawn.
    pub open spec fn slot_of(&self, x: int, y: int, container: Container) -> Option<i16> {
        if self.scale == 0 {
            None
        } else {
            slot_from(
                container.slots@,
                x,
                y,
                self.px as int,
                self.py as int,
                self.scale as int,
                0,
            )
        }
    }

    /// The slot of the open window at a pixel.
    pub open spec fn under(&self, x: int, y: int, windows: Windows) -> Option<i16> {
        match windows.open_container {
            Some(c) => self.slot_of(x, y, c),
            None => None,
        }
    }

    /// The screen with a click on a slot, or beside them, remembered.
    pub open spec fn remembered(&self, slot: Option<i16>, now: u64) -> GuiContainer {
        GuiContainer {
            last_click_slot: match slot {
                Some(s) => s,
                None => OUTSIDE,
            },
            last_click_at: Some(now),
            ..*self
        }
    }

    /// Whether a click on a slot is the second in quick succession.
    pub open spec fn doubled(&self, slot: Option<i16>, now: u64) -> bool {
        &&& slot == Some(self.last_click_slot)
        &&& self.last_click_at matches Some(at)
        &&& now - at < DOUBLE_CLICK
    }

    pub fn new() -> (screen: GuiContainer)
        ensures
            screen.wf(),
            screen == (GuiContainer {
                px: 0,
                py: 0,
                scale: 0,
                last_click_slot: 0,
                last_click_at: None,
            }),
    {
        GuiContainer { px: 0, py: 0, scale: 0, last_click_slot: 0, last_click_at: None }
    }

    /// Put the window in place.
    pub fn layout(&mut self, screen: &Screen, container: &Container, has_effects: bool)
        requires
            screen.wf(),
            size_fits(*container),
        ensures
            final(self).wf(),
            (final(self).px as int, final(self).py as int) == origin_of(
                *screen,
                *container,
                has_effects,
            ),
            final(self).scale == screen.scale,
            *final(self) == (GuiContainer {
                px: final(self).px,
                py: final(self).py,
                scale: screen.scale,
                ..*old(self)
            }),
    {
        let (px, py) = window_origin(screen, container, has_effects);
        self.px = px;
        self.py = py;
        self.scale = screen.scale;
    }

    /// The slot of a window at a pixel.
    pub fn slot_at(&self, x: i32, y: i32, container: &Container) -> (slot: Option<i16>)
        ensures
            slot == self.slot_of(x as int, y as int, *container),
    {
        if self.scale == 0 {
            return None;
        }
        let (mx, my): (i64, i64) = (x as i64, y as i64);
        let (px, py): (i64, i64) = (self.px as i64, self.py as i64);
        let scale: i64 = self.scale as i64;
        let slots = &container.slots;
        let mut i: usize = 0;
        while i < slots.len()
            invariant
                i <= slots@.len(),
                slots@ == container.slots@,
                self.scale != 0,
                mx == x,
                my == y,
                px == self.px,
                py == self.py,
                scale == self.scale,
                slot_from(
                    slots@,
                    x as int,
                    y as int,
                    self.px as int,
                    self.py as int,
                    self.scale as int,
                    0,
                ) == slot_from(
                    slots@,
                    x as int,
                    y as int,
                    self.px as int,
                    self.py as int,
                    self.scale as int,
                    i as int,
                ),
            decreases slots@.len() - i,
        {
            let sx: i64 = slots[i].x as i64;
            let sy: i64 = slots[i].y as i64;
            assert(-0x4000_0000_0000_0000 <= sx * scale <= 0x4000_0000_0000_0000) by (
                nonlinear_arith)
                requires
                    -0x8000_0000 <= sx <= 0x7fff_ffff,
                    -0x8000_0000 <= scale <= 0x7fff_ffff,
            ;
            assert(-0x4000_0000_0000_0000 <= sy * scale <= 0x4000_0000_0000_0000) by (
                nonlinear_arith)
                requires
                    -0x8000_0000 <= sy <= 0x7fff_ffff,
                    -0x8000_0000 <= scale <= 0x7fff_ffff,
            ;
            let cell_x: i64 = px + sx * scale;
            let cell_y: i64 = py + sy * scale;
            if cell_x <= mx && mx < cell_x + 16 * scale && cell_y <= my && my < cell_y + 16
                * scale {
                return Some(#[verifier::truncate] (i as i16));
            }
            i += 1;
        }
        None
    }

    /// Remember a click on a slot; whether it is the second in quick succession.
    pub fn register_double_click(&mut self, slot: Option<i16>, now: u64) -> (double: bool)
        ensures
            double == old(self).doubled(slot, now),
            *final(self) == old(self).remembered(slot, now),
    {
        let double = match (slot, self.last_click_at) {
            (Some(s), Some(at)) => s == self.last_click_slot && (now as i128) - (at as i128)
                < DOUBLE_CLICK as i128,
            _ => false,
        };
        self.last_click_at = Some(now);
        self.last_click_slot = match slot {
            Some(s) => s,
            None => OUTSIDE,
        };
        double
    }

    fn slot_under(&self, x: i32, y: i32, windows: &Windows) -> (slot: Option<i16>)
        ensures
            slot == self.under(x as int, y as int, *windows),
    {
        match &windows.open_container {
            Some(c) => self.slot_at(x, y, c),
            None => None,
        }
    }
}

impl Default for GuiContainer {
    fn default() -> (screen: Self)
        ensures
            screen.wf(),
            screen == (GuiContainer {
                px: 0,
                py: 0,
                scale: 0,
                last_click_slot: 0,
                last_click_at: None,
            }),
    {
        GuiContainer::new()
    }
}

// ── Clicks ────────────────────────────────────────────────────────────────

/// The offer that a click on a villager's window leads to.
pub open spec fn trade_clicked(screen: GuiContainer, x: int, y: int, windows: Windows) -> Option<
    usize,
> {
    match windows.open_container {
        Some(c) => if c.kind == WindowKind::Villager {
            match pressed_button(
                c,
                x,
                y,
                screen.px as int,
                screen.py as int,
                screen.scale as int,
            ) {
                Some(b) => Some(offer_after(c, b) as usize),
                None => None,
            }
        } else {
            None
        },
        None => None,
    }
}

/// Whether a click is on an enchantment, which the server is not told of.
pub open spec fn enchant_clicked(windows: Windows, on_option: bool) -> bool {
    windows.open_container matches Some(c) && c.kind == WindowKind::Enchant && on_option
}

/// What a left click asks for. A second button pressed during a drag does nothing.
/// With shift the stack moves across; with a stack in hand a quick second click
/// collects its like and any other starts a drag; with an empty hand a slot is clicked.
pub open spec fn left_click(
    screen: GuiContainer,
    x: int,
    y: int,
    shift: bool,
    on_option: bool,
    now: u64,
    windows: Windows,
) -> WindowInput {
    let slot = screen.under(x, y, windows);
    if windows.drag_active || enchant_clicked(windows, on_option) {
        WindowInput::Ignore
    } else if trade_clicked(screen, x, y, windows) is Some {
        WindowInput::SelectTrade(trade_clicked(screen, x, y, windows)->0)
    } else if shift {
        match slot {
            Some(slot) => WindowInput::Click { slot, button: 0, mode: 1 },
            None => WindowInput::Ignore,
        }
    } else if windows.cursor_item is Some {
        if screen.doubled(slot, now) {
            WindowInput::Click { slot: slot->0, button: 0, mode: 6 }
        } else {
            WindowInput::BeginDrag { button: 0, slot }
        }
    } else {
        match slot {
            Some(slot) => WindowInput::Click { slot, button: 0, mode: 0 },
            None => WindowInput::Ignore,
        }
    }
}

/// Whether a left click is remembered as one of two: not during a drag, on a trade or
/// an enchantment, or with shift.
pub open spec fn is_remembered(
    screen: GuiContainer,
    x: int,
    y: int,
    shift: bool,
    on_option: bool,
    windows: Windows,
) -> bool {
    &&& !windows.drag_active
    &&& !enchant_clicked(windows, on_option)
    &&& trade_clicked(screen, x, y, windows) is None
    &&& !shift
}

/// What a right click over a slot, or beside them, asks for: with a stack in hand a drag
/// that leaves one in each slot, else half of a stack.
pub open spec fn right_click(slot: Option<i16>, windows: Windows) -> WindowInput {
    if windows.drag_active {
        WindowInput::Ignore
    } else if windows.cursor_item is Some {
        WindowInput::BeginDrag { button: 1, slot }
    } else {
        match slot {
            Some(slot) => WindowInput::Click { slot, button: 1, mode: 0 },
            None => WindowInput::Ignore,
        }
    }
}

/// What a middle click asks for: creative players copy a stack.
pub open spec fn middle_click(slot: Option<i16>, creative: bool, windows: Windows) -> WindowInput {
    match slot {
        Some(slot) => if creative && !windows.drag_active {
            WindowInput::Click { slot, button: 2, mode: 3 }
        } else {
            WindowInput::Ignore
        },
        None => WindowInput::Ignore,
    }
}

/// What moving over a slot with a button down asks for: a drag paints it.
pub open spec fn dragged_over(slot: Option<i16>, windows: Windows) -> WindowInput {
    match slot {
        Some(slot) => if windows.drag_active {
            WindowInput::PaintDrag(slot)
        } else {
            WindowInput::Ignore
        },
        None => WindowInput::Ignore,
    }
}

/// What letting go of a button asks for: only the button that started a drag ends it,
/// and a drag over one slot is a click.
pub open spec fn release(
    screen: GuiContainer,
    x: int,
    y: int,
    right: bool,
    windows: Windows,
) -> WindowInput {
    if !windows.drag_active || right != (windows.drag_button == 1) {
        WindowInput::Ignore
    } else if windows.drag_slots@.len() > 1 {
        WindowInput::CommitDrag
    } else {
        WindowInput::ClickInstead {
            slot: match screen.under(x, y, windows) {
                Some(slot) => slot,
                None => OUTSIDE,
            },
            button: if right {
                1
            } else {
                0
            },
        }
    }
}

/// What a key asks for, with the pointer at a pixel: escape and the inventory key
/// close the window, the drop key drops one or all of a stack, and a digit swaps with
/// the hotbar.
pub open spec fn window_key(
    screen: GuiContainer,
    x: int,
    y: int,
    key: GuiKey,
    control: bool,
    windows: Windows,
) -> WindowInput {
    let slot = screen.under(x, y, windows);
    match key {
        GuiKey::Escape => WindowInput::Close,
        GuiKey::Inventory => WindowInput::Close,
        GuiKey::Drop => match slot {
            Some(slot) => WindowInput::Click {
                slot,
                button: if control {
                    1
                } else {
                    0
                },
                mode: 4,
            },
            None => WindowInput::Ignore,
        },
        GuiKey::Digit(d) => if 1 <= d <= 9 && slot is Some {
            WindowInput::Click { slot: slot->0, button: (d - 1) as i8, mode: 2 }
        } else {
            WindowInput::Ignore
        },
        _ => WindowInput::Ignore,
    }
}

/// The hotbar slot of a digit key.
pub open spec fn digit_slot(key: GuiKey) -> Option<i8> {
    match key {
        GuiKey::Digit(d) => if 1 <= d <= 9 {
            Some((d - 1) as i8)
        } else {
            None
        },
        _ => None,
    }
}

/// The hotbar slot of a digit key.
pub fn hotbar_digit(key: GuiKey) -> (slot: Option<i8>)
    ensures
        slot == digit_slot(key),
{
    match key {
        GuiKey::Digit(d) => if d >= 1 && d <= 9 {
            Some((d - 1) as i8)
        } else {
            None
        },
        _ => None,
    }
}

impl GuiContainer {
    /// A left click at a time in milliseconds. `on_option` says that it is on an
    /// enchantment.
    pub fn mouse_clicked(
        &mut self,
        x: i32,
        y: i32,
        shift: bool,
        on_option: bool,
        now: u64,
        windows: &Windows,
    ) -> (input: WindowInput)
        requires
            old(self).wf(),
            windows.wf(),
        ensures
            final(self).wf(),
            input == left_click(*old(self), x as int, y as int, shift, on_option, now, *windows),
            *final(self) == if is_remembered(
                *old(self),
                x as int,
                y as int,
                shift,
                on_option,
                *windows,
            ) {
                old(self).remembered(old(self).under(x as int, y as int, *windows), now)
            } else {
                *old(self)
            },
    {
        if windows.drag_active {
            return WindowInput::Ignore;
        }
        if let Some(c) = &windows.open_container {
            if c.kind == WindowKind::Enchant && on_option {
                return WindowInput::Ignore;
            }
            if c.kind == WindowKind::Villager {
                match button_at(c, x, y, self.px, self.py, self.scale) {
                    Some(TradeButton::Prev) => {
                        return WindowInput::SelectTrade(c.selected_trade - 1);
                    },
                    Some(TradeButton::Next) => {
                        assert(c.trades@.len() == c.trades.len());
                        return WindowInput::SelectTrade(c.selected_trade + 1);
                    },
                    None => {},
                }
            }
        }
        let slot = self.slot_under(x, y, windows);
        if shift {
            return match slot {
                Some(slot) => WindowInput::Click { slot, button: 0, mode: 1 },
                None => WindowInput::Ignore,
            };
        }
        let double = self.register_double_click(slot, now);
        if windows.cursor_item.is_some() {
            if double {
                if let Some(slot) = slot {
                    return WindowInput::Click { slot, button: 0, mode: 6 };
                }
            }
            WindowInput::BeginDrag { button: 0, slot }
        } else {
            match slot {
                Some(slot) => WindowInput::Click { slot, button: 0, mode: 0 },
                None => WindowInput::Ignore,
            }
        }
    }

    /// A right click: with a stack in hand it starts a drag that leaves one in each
    /// slot, else it takes half of a stack.
    pub fn mouse_right_clicked(&self, x: i32, y: i32, windows: &Windows) -> (input: WindowInput)
        ensures
            input == right_click(self.under(x as int, y as int, *windows), *windows),
    {
        if windows.drag_active {
            return WindowInput::Ignore;
        }
        let slot = self.slot_under(x, y, windows);
        if windows.cursor_item.is_some() {
            WindowInput::BeginDrag { button: 1, slot }
        } else {
            match slot {
                Some(slot) => WindowInput::Click { slot, button: 1, mode: 0 },
                None => WindowInput::Ignore,
            }
        }
    }

    /// A middle click: creative players copy a stack.
    pub fn mouse_middle_clicked(&self, x: i32, y: i32, creative: bool, windows: &Windows) -> (input:
        WindowInput)
        ensures
            input == middle_click(self.under(x as int, y as int, *windows), creative, *windows),
    {
        if windows.drag_active || !creative {
            return WindowInput::Ignore;
        }
        match self.slot_under(x, y, windows) {
            Some(slot) => WindowInput::Click { slot, button: 2, mode: 3 },
            None => WindowInput::Ignore,
        }
    }

    /// The pointer moved with a button down: a drag paints the slot under it.
    pub fn mouse_dragged(&self, x: i32, y: i32, windows: &Windows) -> (input: WindowInput)
        ensures
            input == dragged_over(self.under(x as int, y as int, *windows), *windows),
    {
        if !windows.drag_active {
            return WindowInput::Ignore;
        }
        match self.slot_under(x, y, windows) {
            Some(slot) => WindowInput::PaintDrag(slot),
            None => WindowInput::Ignore,
        }
    }

    /// A button was let go.
    pub fn mouse_released(&self, x: i32, y: i32, right: bool, windows: &Windows) -> (input:
        WindowInput)
        ensures
            input == release(*self, x as int, y as int, right, *windows),
    {
        if !windows.drag_active || right != (windows.drag_button == 1) {
            return WindowInput::Ignore;
        }
        if windows.drag_slots.len() > 1 {
            return WindowInput::CommitDrag;
        }
        let slot: i16 = match self.slot_under(x, y, windows) {
            Some(slot) => slot,
            None => OUTSIDE,
        };
        WindowInput::ClickInstead {
            slot,
            button: if right {
                1
            } else {
                0
            },
        }
    }

    /// A key, with the pointer at a pixel.
    pub fn key_pressed(&self, x: i32, y: i32, key: GuiKey, control: bool, windows: &Windows) -> (
    input: WindowInput)
        ensures
            input == window_key(*self, x as int, y as int, key, control, *windows),
    {
        match key {
            GuiKey::Escape | GuiKey::Inventory => WindowInput::Close,
            GuiKey::Drop => match self.slot_under(x, y, windows) {
                Some(slot) => WindowInput::Click {
                    slot,
                    button: if control {
                        1
                    } else {
                        0
                    },
                    mode: 4,
                },
                None => WindowInput::Ignore,
            },
            _ => match hotbar_digit(key) {
                Some(button) => match self.slot_under(x, y, windows) {
                    Some(slot) => WindowInput::Click { slot, button, mode: 2 },
                    None => WindowInput::Ignore,
                },
                None => WindowInput::Ignore,
            },
        }
    }
}

// ── Doing it ──────────────────────────────────────────────────────────────

/// What an input needs to be carried out: clicks have a meaning where no stack is
/// empty.
pub open spec fn can_perform(windows: Windows, input: WindowInput) -> bool {
    match input {
        WindowInput::Click { slot, button, mode } => windows.open_container matches Some(c)
            ==> click_defined(c.slots@, windows.state(), slot, button, mode),
        WindowInput::ClickInstead { slot, button } => windows.open_container matches Some(c)
            ==> click_defined(c.slots@, windows.state(), slot, button, 0),
        WindowInput::SelectTrade(_) => windows.open_container matches Some(c) ==> c.trades@.len()
            <= i32::MAX,
        _ => true,
    }
}

/// An input was carried out.
pub open spec fn performed(
    before: Windows,
    input: WindowInput,
    creative: bool,
    after: Windows,
    packets: Seq<ServerboundPacket>,
) -> bool {
    match input {
        WindowInput::Ignore => after == before && packets.len() == 0,
        WindowInput::SelectTrade(index) => match before.open_container {
            None => packets.len() == 0 && after == before,
            Some(c) => {
                let chosen = if index < c.trades@.len() {
                    index
                } else if c.trades@.len() == 0 {
                    0
                } else {
                    (c.trades@.len() - 1) as usize
                };
                &&& packets.len() == 1
                &&& crate::game::windows::trade_request(packets[0], chosen as int)
                &&& after == (Windows {
                    open_container: Some(Container { selected_trade: chosen, ..c }),
                    ..before
                })
            },
        },
        WindowInput::Click { slot, button, mode } => window_clicked(
            before,
            slot,
            button,
            mode,
            creative,
            after,
            packets,
        ),
        WindowInput::BeginDrag { button, slot } => {
            &&& packets.len() == 0
            &&& before.cursor_item is None ==> after.drag_slots@ == before.drag_slots@ && after == (
            Windows { drag_slots: after.drag_slots, ..before })
            &&& before.cursor_item is Some ==> {
                let begun = Windows {
                    drag_active: true,
                    drag_button: button,
                    drag_slots: after.drag_slots,
                    ..before
                };
                &&& after == begun
                &&& after.drag_slots@ == match slot {
                    Some(s) => if paints(before, button, s) {
                        seq![s]
                    } else {
                        Seq::empty()
                    },
                    None => Seq::empty(),
                }
            }
        },
        WindowInput::PaintDrag(slot) => {
            &&& packets.len() == 0
            &&& after.drag_slots@ == if before.paintable(slot) {
                before.drag_slots@.push(slot)
            } else {
                before.drag_slots@
            }
            &&& after == (Windows { drag_slots: after.drag_slots, ..before })
        },
        WindowInput::CommitDrag => drag_reported(before, creative, after, packets),
        WindowInput::ClickInstead { slot, button } => {
            exists|mid: Windows| #[trigger]
                given_up(before, mid) && window_clicked(
                    mid,
                    slot,
                    button,
                    0,
                    creative,
                    after,
                    packets,
                )
        },
        WindowInput::Close => {
            &&& after.drag_slots@ == Seq::<i16>::empty()
            &&& after == (Windows {
                cursor_item: None,
                open_container: None,
                drag_active: false,
                drag_slots: after.drag_slots,
                ..before
            })
            &&& packets == match before.open_container {
                Some(c) => seq![ServerboundPacket::CloseWindow { window_id: c.window_id }],
                None => Seq::empty(),
            }
        },
    }
}

/// A drag was given up.
pub open spec fn given_up(before: Windows, after: Windows) -> bool {
    &&& after.drag_slots@ == Seq::<i16>::empty()
    &&& after == (Windows { drag_active: false, drag_slots: after.drag_slots, ..before })
}

/// Whether a drag that starts on a slot paints it.
pub open spec fn paints(windows: Windows, button: i8, slot: i16) -> bool {
    &&& windows.cursor_item is Some
    &&& windows.open_container is Some
    &&& 0 <= slot < windows.open_container->0.slots@.len()
    &&& button == 2 || windows.cursor_item->0.count > 0
    &&& match windows.state().read(windows.open_container->0.slots@, slot as int) {
        None => true,
        Some(item) => crate::item::spec_stackable(item, windows.cursor_item->0@) && item.count
            < crate::item::spec_max_stack(windows.cursor_item->0@),
    }
}

/// Carry out an input; the packets that report it.
pub fn perform(windows: &mut Windows, input: WindowInput, creative: bool) -> (packets: Vec<
    ServerboundPacket,
>)
    requires
        old(windows).wf(),
        can_perform(*old(windows), input),
    ensures
        final(windows).wf(),
        performed(*old(windows), input, creative, *final(windows), packets@),
{
    let mut packets: Vec<ServerboundPacket> = Vec::new();
    match input {
        WindowInput::Ignore => {},
        WindowInput::SelectTrade(index) => {
            if let Some(packet) = windows.merchant_select(index) {
                packets.push(packet);
            }
        },
        WindowInput::Click { slot, button, mode } => {
            packets = windows.container_click(slot, button, mode, creative);
        },
        WindowInput::BeginDrag { button, slot } => {
            windows.container_drag_begin(button);
            let ghost begun = *windows;
            if let Some(s) = slot {
                windows.container_drag_add(s);
                proof {
                    if old(windows).cursor_item is Some {
                        assert(begun.state() == old(windows).state());
                        assert(begun.paintable(s) == paints(*old(windows), button, s));
                        assert(Seq::<i16>::empty().push(s) =~= seq![s]);
                    }
                }
            }
        },
        WindowInput::PaintDrag(slot) => {
            windows.container_drag_add(slot);
        },
        WindowInput::CommitDrag => {
            packets = windows.container_drag_commit(creative);
        },
        WindowInput::ClickInstead { slot, button } => {
            windows.container_drag_cancel();
            let ghost mid = *windows;
            assert(given_up(*old(windows), mid));
            assert(mid.open_container is Some ==> mid.state() == old(windows).state());
            packets = windows.container_click(slot, button, 0, creative);
        },
        WindowInput::Close => {
            if let Some(packet) = windows.container_close() {
                packets.push(packet);
            }
        },
    }
    packets
}

// ── What is drawn ─────────────────────────────────────────────────────────

/// A ratio cut off towards zero; nothing below zero.
pub open spec fn share(n: int, of: int) -> int {
    if of > 0 && n > 0 {
        n / of
    } else if of < 0 && n < 0 {
        (-n) / (-of)
    } else {
        0
    }
}

/// A number brought down to a limit.
pub open spec fn at_most(n: int, limit: int) -> int {
    if n < limit {
        n
    } else {
        limit
    }
}

/// How far the flame and the arrow of a furnace have come, in pixels; nothing where
/// they are not drawn. A fuel of which the server has not said how long it burns
/// burns 200 ticks.
pub open spec fn progress_of(p: Seq<i16>) -> (Option<int>, Option<int>) {
    let total = if p[1] != 0 {
        p[1] as int
    } else {
        200
    };
    (
        if p[0] > 0 {
            Some(
                at_most(
                    share(
                        p[0] * 13,
                        if total > 1 {
                            total
                        } else {
                            1
                        },
                    ),
                    12,
                ),
            )
        } else {
            None
        },
        if p[3] != 0 && p[2] != 0 {
            Some(at_most(share(p[2] * 24, p[3] as int), 24))
        } else {
            None
        },
    )
}

fn share_of(n: i32, of: i32, limit: i32) -> (part: i32)
    requires
        -0x100_0000 <= n <= 0x100_0000,
        -0x100_0000 <= of <= 0x100_0000,
        0 <= limit,
    ensures
        part == at_most(share(n as int, of as int), limit as int),
{
    let part: i32 = if of > 0 && n > 0 {
        n / of
    } else if of < 0 && n < 0 {
        (-n) / (-of)
    } else {
        0
    };
    if part < limit {
        part
    } else {
        limit
    }
}

/// How far the flame and the arrow of a window have come.
pub open spec fn window_progress(kind: WindowKind, properties: Seq<i16>) -> (
    Option<int>,
    Option<int>,
) {
    if kind == WindowKind::Furnace {
        progress_of(properties)
    } else {
        (None, None)
    }
}

/// How far the flame and the arrow of a furnace have come; nothing for other windows.
pub fn furnace_progress(container: &Container) -> (progress: (Option<i32>, Option<i32>))
    ensures
        ({
            let (flame, arrow) = window_progress(container.kind, container.properties@);
            &&& match flame {
                Some(k) => progress.0 matches Some(n) && n == k,
                None => progress.0 is None,
            }
            &&& match arrow {
                Some(k) => progress.1 matches Some(n) && n == k,
                None => progress.1 is None,
            }
        }),
{
    if container.kind != WindowKind::Furnace {
        return (None, None);
    }
    let burn: i32 = container.properties[0] as i32;
    let total: i32 = if container.properties[1] != 0 {
        container.properties[1] as i32
    } else {
        200
    };
    let flame = if burn > 0 {
        Some(
            share_of(
                burn * 13,
                if total > 1 {
                    total
                } else {
                    1
                },
                12,
            ),
        )
    } else {
        None
    };
    let cook: i32 = container.properties[2] as i32;
    let cook_total: i32 = container.properties[3] as i32;
    let arrow = if cook_total != 0 && cook != 0 {
        Some(share_of(cook * 24, cook_total, 24))
    } else {
        None
    };
    (flame, arrow)
}

/// The flame and the arrow stay within their sprites.
pub proof fn law_progress_stays_within_its_sprite(p: Seq<i16>)
    requires
        p.len() == 8,
    ensures
        progress_of(p).0 matches Some(k) ==> 0 <= k <= 12,
        progress_of(p).1 matches Some(k) ==> 0 <= k <= 24,
{
    let n = p[2] * 24;
    let of = p[3] as int;
    if of > 0 && n > 0 {
        assert(n / of >= 0) by (nonlinear_arith)
            requires
                of > 0,
                n > 0,
        ;
    }
    if of < 0 && n < 0 {
        assert((-n) / (-of) >= 0) by (nonlinear_arith)
            requires
                of < 0,
                n < 0,
        ;
    }
    let m = p[0] * 13;
    let total = if p[1] > 1 {
        p[1] as int
    } else if p[1] == 0 {
        200
    } else {
        1
    };
    if m > 0 {
        assert(m / total >= 0) by (nonlinear_arith)
            requires
                total > 0,
                m > 0,
        ;
    }
}

/// The height of a chest window's upper part, in GUI pixels.
pub fn chest_top(rows: u8) -> (height: i32)
    ensures
        height == rows * 18 + 17,
{
    rows as i32 * 18 + 17
}

/// The distance between the effects beside the window, in GUI pixels: closer where
/// there are more than five.
pub open spec fn step_of(count: int) -> int {
    if count > 5 {
        132int / (count - 1)
    } else {
        33
    }
}

/// The distance between the effects beside the window.
pub fn effect_step(count: usize) -> (step: i32)
    requires
        count <= i32::MAX,
    ensures
        step == step_of(count as int),
{
    if count > 5 {
        132 / (count as i32 - 1)
    } else {
        33
    }
}

/// The name and the icon of an effect; no icon for those that act at once.
pub open spec fn effect_info(id: u8) -> Option<(&'static str, Option<(u32, u32)>)> {
    if id == 1 {
        Some(("Speed", Some((0, 0))))
    } else if id == 2 {
        Some(("Slowness", Some((1, 0))))
    } else if id == 3 {
        Some(("Haste", Some((2, 0))))
    } else if id == 4 {
        Some(("Mining Fatigue", Some((3, 0))))
    } else if id == 5 {
        Some(("Strength", Some((4, 0))))
    } else if id == 6 {
        Some(("Instant Health", None))
    } else if id == 7 {
        Some(("Instant Damage", None))
    } else if id == 8 {
        Some(("Jump Boost", Some((2, 1))))
    } else if id == 9 {
        Some(("Nausea", Some((3, 1))))
    } else if id == 10 {
        Some(("Regeneration", Some((7, 0))))
    } else if id == 11 {
        Some(("Resistance", Some((6, 1))))
    } else if id == 12 {
        Some(("Fire Resistance", Some((7, 1))))
    } else if id == 13 {
        Some(("Water Breathing", Some((0, 2))))
    } else if id == 14 {
        Some(("Invisibility", Some((0, 1))))
    } else if id == 15 {
        Some(("Blindness", Some((5, 1))))
    } else if id == 16 {
        Some(("Night Vision", Some((4, 1))))
    } else if id == 17 {
        Some(("Hunger", Some((1, 1))))
    } else if id == 18 {
        Some(("Weakness", Some((5, 0))))
    } else if id == 19 {
        Some(("Poison", Some((6, 0))))
    } else if id == 20 {
        Some(("Wither", Some((1, 2))))
    } else if id == 21 {
        Some(("Health Boost", Some((2, 2))))
    } else if id == 22 {
        Some(("Absorption", Some((2, 2))))
    } else if id == 23 {
        Some(("Saturation", None))
    } else {
        None
    }
}

/// The name and the icon of an effect.
pub fn potion_info(id: u8) -> (info: Option<(&'static str, Option<(u32, u32)>)>)
    ensures
        match effect_info(id) {
            Some((name, icon)) => info matches Some(i) && i.0@ == name@ && i.1 == icon,
            None => info is None,
        },
{
    match id {
        1 => Some(("Speed", Some((0, 0)))),
        2 => Some(("Slowness", Some((1, 0)))),
        3 => Some(("Haste", Some((2, 0)))),
        4 => Some(("Mining Fatigue", Some((3, 0)))),
        5 => Some(("Strength", Some((4, 0)))),
        6 => Some(("Instant Health", None)),
        7 => Some(("Instant Damage", None)),
        8 => Some(("Jump Boost", Some((2, 1)))),
        9 => Some(("Nausea", Some((3, 1)))),
        10 => Some(("Regeneration", Some((7, 0)))),
        11 => Some(("Resistance", Some((6, 1)))),
        12 => Some(("Fire Resistance", Some((7, 1)))),
        13 => Some(("Water Breathing", Some((0, 2)))),
        14 => Some(("Invisibility", Some((0, 1)))),
        15 => Some(("Blindness", Some((5, 1)))),
        16 => Some(("Night Vision", Some((4, 1)))),
        17 => Some(("Hunger", Some((1, 1)))),
        18 => Some(("Weakness", Some((5, 0)))),
        19 => Some(("Poison", Some((6, 0)))),
        20 => Some(("Wither", Some((1, 2)))),
        21 => Some(("Health Boost", Some((2, 2)))),
        22 => Some(("Absorption", Some((2, 2)))),
        23 => Some(("Saturation", None)),
        _ => None,
    }
}

/// What follows an effect's name: its strength, from the second to the fourth.
pub open spec fn strength_suffix(amplifier: i8) -> Seq<char> {
    if amplifier == 1 {
        " II"@
    } else if amplifier == 2 {
        " III"@
    } else if amplifier == 3 {
        " IV"@
    } else {
        ""@
    }
}

/// What follows an effect's name.
pub fn amplifier_suffix(amplifier: i8) -> (suffix: &'static str)
    ensures
        suffix@ == strength_suffix(amplifier),
{
    match amplifier {
        1 => " II",
        2 => " III",
        3 => " IV",
        _ => "",
    }
}

/// A quotient cut off towards zero.
pub open spec fn cut_quotient(n: int, by: int) -> int {
    if n >= 0 {
        n / by
    } else {
        -((-n) / by)
    }
}

/// A number in at least two characters.
pub open spec fn two_digits(n: int) -> Seq<char> {
    if 0 <= n < 10 {
        "0"@ + decimal(n)
    } else {
        decimal(n)
    }
}

/// Ticks as minutes and seconds.
pub open spec fn elapsed(ticks: int) -> Seq<char> {
    let secs = cut_quotient(ticks, 20);
    let minutes = cut_quotient(secs, 60);
    decimal(minutes) + ":"@ + two_digits(secs - minutes * 60)
}

fn cut(n: i32, by: i32) -> (q: i32)
    requires
        0 < by,
    ensures
        q == cut_quotient(n as int, by as int),
{
    proof {
        if n >= 0 {
            assert(0 <= n as int / by as int <= n) by (nonlinear_arith)
                requires
                    n >= 0,
                    by > 0,
            ;
        } else {
            assert(0 <= (-n) / by as int <= -n) by (nonlinear_arith)
                requires
                    n < 0,
                    by > 0,
            ;
        }
    }
    if n >= 0 {
        n / by
    } else {
        -((-(n as i64)) / by as i64) as i32
    }
}

/// Ticks as minutes and seconds.
pub fn ticks_to_elapsed(ticks: i32) -> (text: String)
    ensures
        text@ == elapsed(ticks as int),
{
    let secs: i32 = cut(ticks, 20);
    let minutes: i32 = cut(secs, 60);
    let rest: i32 = secs - minutes * 60;
    let mut text = number_text(minutes as i64);
    append(&mut text, ":");
    let ghost start = text@;
    if 0 <= rest && rest < 10 {
        append(&mut text, "0");
        append_number(&mut text, rest as i64);
        assert(text@ =~= start + ("0"@ + decimal(rest as int)));
    } else {
        append_number(&mut text, rest as i64);
    }
    text
}

} // verus!
