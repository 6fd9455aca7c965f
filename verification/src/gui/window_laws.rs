//! What the window screen is for: the slot under the pointer, what clicks and keys ask for,
//! what the server is told, and what gauges show.

use vstd::prelude::*;
use crate::container::state::{Container, Slot, WindowKind};
use crate::game::windows::Windows;
use crate::packets::ServerboundPacket;
use crate::text::decimal;
use super::inventory::{
    dragged_over, effect_info, elapsed, left_click, middle_click, on_slot, origin_of, performed,
    progress_of, release, right_click, slot_from, step_of, strength_suffix, window_key,
    GuiContainer, WindowInput,
};
use super::merchant::{button_rect, enabled, offer_after, pressed_button, TradeButton};
use super::widgets::{GuiKey, Screen};

verus! {

// ── Places ────────────────────────────────────────────────────────────────

/// A window stands in the middle of the screen: what is left on either side differs by a
/// pixel at most. Effects beside the player's move it to the right by sixty of its pixels,
/// and never up or down.
pub proof fn law_windows_stand_in_the_middle(screen: Screen, container: Container, has_effects: bool)
    ensures
        ({
            let (px, py) = origin_of(screen, container, has_effects);
            let s = screen.scale as int;
            let moved = if has_effects && container.kind == WindowKind::Player {
                60 * s
            } else {
                0
            };
            let right = screen.width - container.x_size * s - (px - moved);
            let below = screen.height - container.y_size * s - py;
            &&& -1 <= right - (px - moved) <= 1
            &&& -1 <= below - py <= 1
        }),
{
}

/// A slot is sixteen pixels of the window wide and high, from its own corner.
pub proof fn law_slots_are_sixteen_wide(slot: Slot, dx: int, dy: int, px: int, py: int, scale: int)
    requires
        scale > 0,
    ensures
        on_slot(slot, px + slot.x * scale + dx, py + slot.y * scale + dy, px, py, scale) <==> 0 <= dx
            < 16 * scale && 0 <= dy < 16 * scale,
{
}

proof fn lemma_slot_from(
    slots: Seq<Slot>,
    x: int,
    y: int,
    px: int,
    py: int,
    scale: int,
    i: int,
)
    requires
        0 <= i <= slots.len() <= 0x7fff,
    ensures
        slot_from(slots, x, y, px, py, scale, i) matches Some(s) ==> i <= s < slots.len()
            && on_slot(slots[s as int], x, y, px, py, scale) && forall|k: int|
            i <= k < s ==> !on_slot(#[trigger] slots[k], x, y, px, py, scale),
        slot_from(slots, x, y, px, py, scale, i) is None ==> forall|k: int|
            i <= k < slots.len() ==> !on_slot(#[trigger] slots[k], x, y, px, py, scale),
    decreases slots.len() - i,
{
    if i < slots.len() {
        lemma_slot_from(slots, x, y, px, py, scale, i + 1);
    }
}

/// The slot under a pixel is one that the pixel is on; there is none exactly if it is on
/// none.
pub proof fn law_the_slot_is_under_the_pointer(
    screen: GuiContainer,
    x: int,
    y: int,
    container: Container,
)
    requires
        container.slots@.len() <= 0x7fff,
        screen.scale != 0,
    ensures
        ({
            let (px, py, scale) = (screen.px as int, screen.py as int, screen.scale as int);
            let slots = container.slots@;
            &&& screen.slot_of(x, y, container) matches Some(s) ==> 0 <= s < slots.len() && on_slot(
                slots[s as int],
                x,
                y,
                px,
                py,
                scale,
            )
            &&& screen.slot_of(x, y, container) is None ==> forall|k: int|
                0 <= k < slots.len() ==> !on_slot(#[trigger] slots[k], x, y, px, py, scale)
        }),
{
    lemma_slot_from(
        container.slots@,
        x,
        y,
        screen.px as int,
        screen.py as int,
        screen.scale as int,
        0,
    );
}

// ── Clicks ────────────────────────────────────────────────────────────────

/// With an empty hand a left click takes the stack under it, and a right click half of it;
/// beside the slots neither does anything.
pub proof fn law_empty_hands_take(screen: GuiContainer, x: int, y: int, now: u64, windows: Windows)
    requires
        windows.cursor_item is None,
        !windows.drag_active,
        windows.open_container matches Some(c) && c.kind != WindowKind::Villager && c.kind
            != WindowKind::Enchant,
    ensures
        ({
            let under = screen.under(x, y, windows);
            let left = left_click(screen, x, y, false, false, now, windows);
            let right = right_click(under, windows);
            &&& under matches Some(s) ==> (left matches WindowInput::Click { slot, button, mode }
                && slot == s && button == 0 && mode == 0)
            &&& under matches Some(s) ==> (right matches WindowInput::Click { slot, button, mode }
                && slot == s && button == 1 && mode == 0)
            &&& under is None ==> left == WindowInput::Ignore && right == WindowInput::Ignore
        }),
{
}

/// With shift the stack under the pointer moves across, whatever is carried.
pub proof fn law_shift_moves_across(screen: GuiContainer, x: int, y: int, now: u64, windows: Windows)
    requires
        !windows.drag_active,
        windows.open_container matches Some(c) && c.kind != WindowKind::Villager && c.kind
            != WindowKind::Enchant,
    ensures
        ({
            let left = left_click(screen, x, y, true, false, now, windows);
            &&& screen.under(x, y, windows) matches Some(s) ==> (left matches WindowInput::Click {
                slot,
                button,
                mode,
            } && slot == s && button == 0 && mode == 1)
            &&& screen.under(x, y, windows) is None ==> left == WindowInput::Ignore
        }),
{
}

/// A carried stack is put down by dragging: the left button shares it, the right one leaves
/// one in each slot. A second left click on a slot within a quarter of a second collects
/// the like instead.
pub proof fn law_carried_stacks_are_dragged(
    screen: GuiContainer,
    x: int,
    y: int,
    now: u64,
    windows: Windows,
)
    requires
        windows.cursor_item is Some,
        !windows.drag_active,
        windows.open_container matches Some(c) && c.kind != WindowKind::Villager && c.kind
            != WindowKind::Enchant,
    ensures
        ({
            let under = screen.under(x, y, windows);
            let quick = screen.last_click_at matches Some(at) && now - at < 250;
            let again = under == Some(screen.last_click_slot);
            let left = left_click(screen, x, y, false, false, now, windows);
            let right = right_click(under, windows);
            &&& quick && again ==> (left matches WindowInput::Click { slot, button, mode } && Some(
                slot,
            ) == under && button == 0 && mode == 6)
            &&& !(quick && again) ==> (left matches WindowInput::BeginDrag { button, slot } && button
                == 0 && slot == under)
            &&& (right matches WindowInput::BeginDrag { button, slot } && button == 1 && slot
                == under)
        }),
{
}

/// While a drag runs no button does anything but end it or paint.
pub proof fn law_drags_are_not_disturbed(
    screen: GuiContainer,
    x: int,
    y: int,
    shift: bool,
    on_option: bool,
    creative: bool,
    now: u64,
    windows: Windows,
)
    requires
        windows.drag_active,
    ensures
        left_click(screen, x, y, shift, on_option, now, windows) == WindowInput::Ignore,
        right_click(screen.under(x, y, windows), windows) == WindowInput::Ignore,
        middle_click(screen.under(x, y, windows), creative, windows) == WindowInput::Ignore,
        screen.under(x, y, windows) matches Some(s) ==> dragged_over(
            screen.under(x, y, windows),
            windows,
        ) == WindowInput::PaintDrag(s),
        screen.under(x, y, windows) is None ==> dragged_over(screen.under(x, y, windows), windows)
            == WindowInput::Ignore,
{
}

/// Without a drag moving the pointer paints nothing; the middle button copies, for creative
/// players alone.
pub proof fn law_the_middle_button_copies(slot: Option<i16>, creative: bool, windows: Windows)
    requires
        !windows.drag_active,
    ensures
        dragged_over(slot, windows) == WindowInput::Ignore,
        !creative || slot is None ==> middle_click(slot, creative, windows) == WindowInput::Ignore,
        creative && slot is Some ==> (middle_click(slot, creative, windows)
            matches WindowInput::Click { slot: s, button, mode } && Some(s) == slot && button == 2
            && mode == 3),
{
}

/// Only the button that started a drag ends it: over two slots or more it is reported, over
/// fewer it is a click of that button, beside the slots one outside.
pub proof fn law_drags_end_with_their_button(
    screen: GuiContainer,
    x: int,
    y: int,
    right: bool,
    windows: Windows,
)
    ensures
        ({
            let input = release(screen, x, y, right, windows);
            let ended = windows.drag_active && (right <==> windows.drag_button == 1);
            &&& !ended ==> input == WindowInput::Ignore
            &&& ended && windows.drag_slots@.len() >= 2 ==> input == WindowInput::CommitDrag
            &&& ended && windows.drag_slots@.len() < 2 ==> (input
                matches WindowInput::ClickInstead { slot, button } && (button == 1 <==> right) && (
            button == 0 <==> !right) && match screen.under(x, y, windows) {
                Some(s) => slot == s,
                None => slot == -999,
            })
        }),
{
}

/// Escape and the inventory key close the window; the drop key drops one of the stack under
/// the pointer, or all with control; a digit exchanges it with the hotbar slot of that
/// number, counted from one.
pub proof fn law_keys_act_on_the_slot_under_the_pointer(
    screen: GuiContainer,
    x: int,
    y: int,
    control: bool,
    d: u8,
    windows: Windows,
)
    ensures
        window_key(screen, x, y, GuiKey::Escape, control, windows) == WindowInput::Close,
        window_key(screen, x, y, GuiKey::Inventory, control, windows) == WindowInput::Close,
        screen.under(x, y, windows) matches Some(s) ==> (window_key(
            screen,
            x,
            y,
            GuiKey::Drop,
            control,
            windows,
        ) matches WindowInput::Click { slot, button, mode } && slot == s && (button == 1 <==> control)
            && (button == 0 <==> !control) && mode == 4),
        screen.under(x, y, windows) matches Some(s) ==> (1 <= d <= 9 ==> (window_key(
            screen,
            x,
            y,
            GuiKey::Digit(d),
            control,
            windows,
        ) matches WindowInput::Click { slot, button, mode } && slot == s && button + 1 == d && mode
            == 2)),
        screen.under(x, y, windows) is None ==> window_key(
            screen,
            x,
            y,
            GuiKey::Drop,
            control,
            windows,
        ) == WindowInput::Ignore && window_key(screen, x, y, GuiKey::Digit(d), control, windows)
            == WindowInput::Ignore,
        d == 0 || d > 9 ==> window_key(screen, x, y, GuiKey::Digit(d), control, windows)
            == WindowInput::Ignore,
{
}

// ── What is done ──────────────────────────────────────────────────────────

/// Closing a window tells the server which, once, and ends everything begun in it; what the
/// player has stays.
pub proof fn law_closing_tells_the_server(
    before: Windows,
    creative: bool,
    after: Windows,
    packets: Seq<ServerboundPacket>,
)
    requires
        performed(before, WindowInput::Close, creative, after, packets),
    ensures
        after.open_container is None,
        after.cursor_item is None,
        !after.drag_active,
        after.drag_slots@.len() == 0,
        after.inventory == before.inventory,
        before.open_container is None ==> packets.len() == 0,
        before.open_container matches Some(c) ==> packets.len() == 1 && (packets[0]
            matches ServerboundPacket::CloseWindow { window_id } && window_id == c.window_id),
{
}

/// A click is reported once: the window, the slot, the button and the mode that were
/// clicked, with a number one higher than the last.
pub proof fn law_clicks_are_reported(
    before: Windows,
    slot: i16,
    button: i8,
    mode: i8,
    creative: bool,
    after: Windows,
    packets: Seq<ServerboundPacket>,
)
    requires
        performed(before, WindowInput::Click { slot, button, mode }, creative, after, packets),
        before.open_container is Some,
    ensures
        ({
            let c = before.open_container->0;
            &&& packets.len() == 1
            &&& (packets[0] matches ServerboundPacket::ClickWindow {
                window_id,
                slot: s,
                button: b,
                action_number,
                mode: m,
                ..
            } && window_id == c.window_id && s == slot && b == button && m == mode && (c.action
                < i16::MAX ==> action_number == c.action + 1))
            &&& (after.open_container matches Some(d) && d.window_id == c.window_id && (c.action
                < i16::MAX ==> d.action == c.action + 1))
        }),
        after.drag_active == before.drag_active,
        after.window_close_pending == before.window_close_pending,
{
}

/// A drag is begun with a carried stack alone, and tells the server nothing yet; the slot
/// it begins on is painted first, where it takes the stack.
pub proof fn law_drags_begin_untold(
    before: Windows,
    button: i8,
    slot: Option<i16>,
    creative: bool,
    after: Windows,
    packets: Seq<ServerboundPacket>,
)
    requires
        performed(before, WindowInput::BeginDrag { button, slot }, creative, after, packets),
    ensures
        packets.len() == 0,
        after.inventory == before.inventory,
        after.cursor_item == before.cursor_item,
        after.open_container == before.open_container,
        before.cursor_item is Some ==> after.drag_active && after.drag_button == button,
        before.cursor_item is None ==> after.drag_active == before.drag_active && after.drag_button
            == before.drag_button,
        before.cursor_item is Some ==> after.drag_slots@.len() <= 1,
        before.cursor_item is Some && after.drag_slots@.len() == 1 ==> slot == Some(
            after.drag_slots@[0],
        ),
        before.cursor_item is Some && slot is None ==> after.drag_slots@.len() == 0,
        before.cursor_item matches Some(carried) ==> (slot matches Some(s) ==> (
        before.open_container matches Some(c) ==> (0 <= s < c.slots@.len() && before.state().read(
            c.slots@,
            s as int,
        ) is None && carried.count > 0 ==> after.drag_slots@.len() == 1))),
{
}

/// Painting adds the slot under the pointer at the end, once, and only where it may be
/// painted; nothing else changes, and the server is told nothing yet.
pub proof fn law_painting_adds_a_slot_once(
    before: Windows,
    slot: i16,
    creative: bool,
    after: Windows,
    packets: Seq<ServerboundPacket>,
)
    requires
        performed(before, WindowInput::PaintDrag(slot), creative, after, packets),
    ensures
        packets.len() == 0,
        after.drag_slots@ == before.drag_slots@ || after.drag_slots@ == before.drag_slots@.push(
            slot,
        ),
        before.drag_slots@.contains(slot) ==> after.drag_slots@ == before.drag_slots@,
        !before.drag_active ==> after.drag_slots@ == before.drag_slots@,
        before.cursor_item is None ==> after.drag_slots@ == before.drag_slots@,
        before.cursor_item matches Some(carried) ==> (before.open_container matches Some(c) ==> (
        before.drag_active && !before.drag_slots@.contains(slot) && 0 <= slot < c.slots@.len()
            && before.drag_slots@.len() < carried.count && before.state().read(c.slots@, slot as int)
            is None ==> after.drag_slots@ == before.drag_slots@.push(slot))),
        before.cursor_item matches Some(carried) ==> (before.drag_button != 2
            && before.drag_slots@.len() >= carried.count ==> after.drag_slots@
            == before.drag_slots@),
        after.inventory == before.inventory,
        after.cursor_item == before.cursor_item,
        after.open_container == before.open_container,
        after.drag_active == before.drag_active,
{
}

/// A drag over two slots or more is reported as a click outside that starts it, one on each
/// painted slot in order, and one outside that ends it, numbered in a row; then it is over.
pub proof fn law_drags_are_reported_in_order(
    before: Windows,
    creative: bool,
    after: Windows,
    packets: Seq<ServerboundPacket>,
    i: int,
)
    requires
        performed(before, WindowInput::CommitDrag, creative, after, packets),
        before.drag_active,
        before.drag_slots@.len() >= 2,
        before.open_container is Some,
        0 <= before.drag_button <= 2,
        0 <= i < before.drag_slots@.len(),
    ensures
        ({
            let c = before.open_container->0;
            let n = before.drag_slots@.len() as int;
            &&& packets.len() == n + 2
            &&& drag_click(packets[0], c.window_id, -999, 4 * before.drag_button)
            &&& drag_click(
                packets[i + 1],
                c.window_id,
                before.drag_slots@[i] as int,
                4 * before.drag_button + 1,
            )
            &&& drag_click(packets[n + 1], c.window_id, -999, 4 * before.drag_button + 2)
        }),
        !after.drag_active,
        after.drag_slots@.len() == 0,
{
    let c = before.open_container->0;
    let n = before.drag_slots@.len() as int;
    let b = before.drag_button;
    assert(0 <= b <= 2 ==> (b << 2) == 4 * b && ((b << 2) | 1) == 4 * b + 1 && ((b << 2) | 2) == 4
        * b + 2) by (bit_vector);
    let clicks = crate::game::windows::drag_clicks(before.drag_slots@, b << 2);
    assert(clicks.len() == n + 2);
    assert(clicks[0] == (-999i16, b << 2));
    assert(clicks[i + 1] == (before.drag_slots@[i], (b << 2) | 1));
    assert(clicks[n + 1] == (-999i16, (b << 2) | 2));
    assert(crate::container::engine::is_click_packet(
        packets[0],
        c.window_id,
        clicks[0].0,
        clicks[0].1,
        crate::game::windows::action_after(c.action, 1),
        5,
        None,
    ));
    assert(crate::container::engine::is_click_packet(
        packets[i + 1],
        c.window_id,
        clicks[i + 1].0,
        clicks[i + 1].1,
        crate::game::windows::action_after(c.action, i + 2),
        5,
        None,
    ));
    assert(crate::container::engine::is_click_packet(
        packets[n + 1],
        c.window_id,
        clicks[n + 1].0,
        clicks[n + 1].1,
        crate::game::windows::action_after(c.action, n + 2),
        5,
        None,
    ));
}

/// A packet reports a step of a drag.
pub open spec fn drag_click(packet: ServerboundPacket, window: u8, at: int, with: int) -> bool {
    packet matches ServerboundPacket::ClickWindow { window_id, slot, button, mode, .. } && window_id
        == window && slot == at && button == with && mode == 5
}

/// A chosen offer is asked of the server by its number, the nearest there is; stacks stay
/// where they are.
pub proof fn law_chosen_offers_are_asked_for(
    before: Windows,
    index: usize,
    creative: bool,
    after: Windows,
    packets: Seq<ServerboundPacket>,
)
    requires
        performed(before, WindowInput::SelectTrade(index), creative, after, packets),
        before.open_container is Some,
    ensures
        ({
            let c = before.open_container->0;
            after.open_container matches Some(d) && {
                &&& index < c.trades@.len() ==> d.selected_trade == index
                &&& 0 < c.trades@.len() <= index ==> d.selected_trade == c.trades@.len() - 1
                &&& c.trades@.len() == 0 ==> d.selected_trade == 0
                &&& d.trades == c.trades && d.slots == c.slots && d.container_inv
                    == c.container_inv && d.window_id == c.window_id
                &&& packets.len() == 1
                &&& (packets[0] matches ServerboundPacket::PluginMessage { channel, data }
                    && channel@ == "MC|TrSel"@ && data@.len() == 4 && crate::nbt::be_i32(data@, 0)
                    == d.selected_trade)
            }
        }),
        after.inventory == before.inventory,
        after.cursor_item == before.cursor_item,
{
}

// ── Offers ────────────────────────────────────────────────────────────────

/// One button leads to the offer before and the other to the one after, where there is such
/// an offer.
pub proof fn law_trade_buttons_go_back_and_on(container: Container)
    ensures
        enabled(container, TradeButton::Prev) <==> container.selected_trade > 0,
        enabled(container, TradeButton::Next) <==> container.selected_trade + 1
            < container.trades@.len(),
        offer_after(container, TradeButton::Prev) + 1 == container.selected_trade,
        offer_after(container, TradeButton::Next) == container.selected_trade + 1,
{
}

/// A pressed button can be used and is under the pointer; one that can be used and is under
/// the pointer is pressed.
pub proof fn law_pressed_buttons_are_under_the_pointer(
    container: Container,
    x: int,
    y: int,
    px: int,
    py: int,
    scale: int,
)
    ensures
        pressed_button(container, x, y, px, py, scale) matches Some(b) ==> enabled(container, b)
            && button_rect(px, py, scale, b).spec_contains(x, y),
        scale != 0 && container.trades@.len() > 0 && enabled(container, TradeButton::Prev)
            && button_rect(px, py, scale, TradeButton::Prev).spec_contains(x, y) ==> pressed_button(
            container,
            x,
            y,
            px,
            py,
            scale,
        ) == Some(TradeButton::Prev),
{
}

// ── Gauges ────────────────────────────────────────────────────────────────

/// The flame of a furnace falls with the fuel left, and the arrow grows with the cooking:
/// empty at the start, full at the end, never past it, and never backwards.
pub proof fn law_gauges_follow_their_progress(p: Seq<i16>, q: Seq<i16>)
    requires
        p.len() == 8,
        q.len() == 8,
        p[1] > 1,
        q[1] == p[1],
        p[3] > 0,
        q[3] == p[3],
        0 < p[0] <= q[0],
        0 < p[2] <= q[2],
    ensures
        progress_of(p).0 is Some && progress_of(q).0 is Some && 0 <= progress_of(p).0->0
            <= progress_of(q).0->0 <= 12,
        progress_of(p).1 is Some && progress_of(q).1 is Some && 0 <= progress_of(p).1->0
            <= progress_of(q).1->0 <= 24,
        q[0] == q[1] ==> progress_of(q).0 == Some(12int),
        q[2] == q[3] ==> progress_of(q).1 == Some(24int),
        2 * q[2] == q[3] ==> progress_of(q).1 == Some(12int),
{
    lemma_share_monotone(p[0] * 13, q[0] * 13, p[1] as int);
    lemma_share_monotone(p[2] * 24, q[2] * 24, p[3] as int);
    if q[0] == q[1] {
        assert((q[0] * 13) / (q[0] as int) == 13) by (nonlinear_arith)
            requires
                q[0] > 0,
        ;
    }
    if q[2] == q[3] {
        assert((q[2] * 24) / (q[2] as int) == 24) by (nonlinear_arith)
            requires
                q[2] > 0,
        ;
    }
    if 2 * q[2] == q[3] {
        assert((q[2] * 24) / (2 * q[2]) == 12) by (nonlinear_arith)
            requires
                q[2] > 0,
        ;
    }
}

proof fn lemma_share_monotone(a: int, b: int, of: int)
    requires
        0 <= a <= b,
        of > 0,
    ensures
        0 <= a / of <= b / of,
{
    vstd::arithmetic::div_mod::lemma_div_is_ordered(a, b, of);
    vstd::arithmetic::div_mod::lemma_div_pos_is_pos(a, of);
}

/// Gauges that have not begun are not drawn.
pub proof fn law_idle_gauges_are_hidden(p: Seq<i16>)
    requires
        p.len() == 8,
    ensures
        p[0] <= 0 <==> progress_of(p).0 is None,
        p[2] == 0 || p[3] == 0 <==> progress_of(p).1 is None,
{
}

/// Up to five effects are thirty-three pixels apart; more of them are closer, so that the
/// last one still starts within a hundred and thirty-two.
pub proof fn law_effects_fit_beside_the_window(count: int)
    requires
        count >= 1,
    ensures
        count <= 5 ==> step_of(count) == 33,
        0 <= step_of(count) * (count - 1) <= 132,
        count > 5 ==> 132 < (step_of(count) + 1) * (count - 1),
{
    if count > 5 {
        vstd::arithmetic::div_mod::lemma_fundamental_div_mod(132, count - 1);
        vstd::arithmetic::div_mod::lemma_mod_bound(132, count - 1);
        let q = 132int / (count - 1);
        assert(q * (count - 1) <= 132 && 132 < (q + 1) * (count - 1) && 0 <= q * (count - 1))
            by (nonlinear_arith)
            requires
                132 == (count - 1) * q + 132int % (count - 1),
                0 <= 132int % (count - 1) < count - 1,
                count > 5,
        ;
    } else {
        assert(step_of(count) == 33);
        assert(33 * (count - 1) <= 132);
    }
}

/// The time left of an effect is shown in whole minutes and seconds: twenty ticks to a
/// second and sixty seconds to a minute, seconds in two digits.
pub proof fn law_times_are_minutes_and_seconds(minutes: int, seconds: int, ticks: int)
    requires
        0 <= minutes,
        0 <= seconds < 60,
        0 <= ticks < 20,
    ensures
        seconds >= 10 ==> elapsed((minutes * 60 + seconds) * 20 + ticks) == decimal(minutes) + ":"@
            + decimal(seconds),
        seconds < 10 ==> elapsed((minutes * 60 + seconds) * 20 + ticks) == decimal(minutes) + ":"@ + (
        "0"@ + decimal(seconds)),
{
    let secs = minutes * 60 + seconds;
    assert((secs * 20 + ticks) / 20 == secs);
    assert(secs / 60 == minutes);
}

/// Effects up to the fourth strength are told apart by a numeral, from the second on.
pub proof fn law_strengths_have_numerals(amplifier: i8)
    ensures
        amplifier == 1 ==> strength_suffix(amplifier) == " II"@,
        amplifier == 2 ==> strength_suffix(amplifier) == " III"@,
        amplifier == 3 ==> strength_suffix(amplifier) == " IV"@,
        amplifier <= 0 || amplifier > 3 ==> strength_suffix(amplifier).len() == 0,
{
    reveal_strlit("");
}

/// Effects are known by their numbers from one to twenty-three; those that act at once have
/// no icon, and an icon is one of eight in a row, of three rows.
pub proof fn law_effects_are_known_by_number(id: u8)
    ensures
        effect_info(id) is Some <==> 1 <= id <= 23,
        effect_info(id) matches Some((name, icon)) ==> (icon is None <==> id == 6 || id == 7 || id
            == 23),
        effect_info(id) matches Some((name, Some((u, v)))) ==> u < 8 && v < 3,
        effect_info(1) matches Some((name, icon)) && name@ == "Speed"@,
        effect_info(10) matches Some((name, icon)) && name@ == "Regeneration"@,
        effect_info(19) matches Some((name, icon)) && name@ == "Poison"@,
{
}

/// No two effects have the same icon, but for more health and absorbed damage.
pub proof fn law_icons_tell_effects_apart(a: u8, b: u8)
    requires
        a < b,
        effect_info(a) is Some,
        effect_info(b) is Some,
        (effect_info(a)->0).1 is Some,
        !(a == 21 && b == 22),
    ensures
        (effect_info(a)->0).1 != (effect_info(b)->0).1,
{
}

} // verus!
