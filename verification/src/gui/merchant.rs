//! The villager's offer above the slots of its window.

use vstd::prelude::*;
use crate::container::state::Container;
use super::widgets::UiRect;

verus! {

/// The buttons that change the offer.
#[derive(Debug, Clone, Copy, PartialEq, Eq, Structural)]
pub enum TradeButton {
    Prev,
    Next,
}

/// What of the offer the pointer is over.
#[derive(Debug, Clone, Copy, PartialEq, Eq, Structural)]
pub enum OfferPart {
    FirstCost,
    SecondCost,
    Goods,
    /// The arrow of an offer that is not to be had.
    Locked,
}

/// A rectangle of the window: offset and size in GUI pixels.
pub open spec fn window_rect(px: int, py: int, scale: int, x: int, y: int, w: int, h: int) -> UiRect {
    UiRect {
        x: (px + x * scale) as i32,
        y: (py + y * scale) as i32,
        width: (w * scale) as i32,
        height: (h * scale) as i32,
    }
}

/// The window's place and the scale leave room for sums.
pub open spec fn window_fits(px: int, py: int, scale: int) -> bool {
    &&& -0x1000_0000 <= px <= 0x1000_0000
    &&& -0x1000_0000 <= py <= 0x1000_0000
    &&& 0 <= scale <= 0x1_0000
}

/// Whether a button can be used: there is an offer before or after the selected one.
pub open spec fn enabled(container: Container, button: TradeButton) -> bool {
    match button {
        TradeButton::Prev => container.selected_trade > 0,
        TradeButton::Next => container.selected_trade + 1 < container.trades@.len(),
    }
}

/// Where a button is: left of the costs, or right of the goods.
pub open spec fn button_rect(px: int, py: int, scale: int, button: TradeButton) -> UiRect {
    match button {
        TradeButton::Prev => window_rect(px, py, scale, 17, 23, 12, 19),
        TradeButton::Next => window_rect(px, py, scale, 147, 23, 12, 19),
    }
}

/// The button under a pixel, if it can be used.
pub open spec fn pressed_button(
    container: Container,
    x: int,
    y: int,
    px: int,
    py: int,
    scale: int,
) -> Option<TradeButton> {
    if scale == 0 || container.trades@.len() == 0 {
        None
    } else if enabled(container, TradeButton::Prev) && button_rect(
        px,
        py,
        scale,
        TradeButton::Prev,
    ).spec_contains(x, y) {
        Some(TradeButton::Prev)
    } else if enabled(container, TradeButton::Next) && button_rect(
        px,
        py,
        scale,
        TradeButton::Next,
    ).spec_contains(x, y) {
        Some(TradeButton::Next)
    } else {
        None
    }
}

/// A rectangle of the window.
pub fn place(px: i32, py: i32, scale: i32, x: i32, y: i32, w: i32, h: i32) -> (rect: UiRect)
    requires
        window_fits(px as int, py as int, scale as int),
        -0x2000 <= x <= 0x2000,
        -0x2000 <= y <= 0x2000,
        0 <= w <= 0x2000,
        0 <= h <= 0x2000,
    ensures
        rect == window_rect(
            px as int,
            py as int,
            scale as int,
            x as int,
            y as int,
            w as int,
            h as int,
        ),
{
    proof {
        lemma_scaled(x as int, scale as int);
        lemma_scaled(y as int, scale as int);
        lemma_scaled(w as int, scale as int);
        lemma_scaled(h as int, scale as int);
    }
    UiRect { x: px + x * scale, y: py + y * scale, width: w * scale, height: h * scale }
}

proof fn lemma_scaled(n: int, scale: int)
    requires
        -0x2000 <= n <= 0x2000,
        0 <= scale <= 0x1_0000,
    ensures
        -0x2000_0000 <= n * scale <= 0x2000_0000,
        0 <= n ==> 0 <= n * scale,
{
    assert(-0x2000_0000 <= n * scale <= 0x2000_0000 && (0 <= n ==> 0 <= n * scale))
        by (nonlinear_arith)
        requires
            -0x2000 <= n <= 0x2000,
            0 <= scale <= 0x1_0000,
    ;
}

fn is_enabled(container: &Container, button: TradeButton) -> (yes: bool)
    ensures
        yes == enabled(*container, button),
{
    match button {
        TradeButton::Prev => container.selected_trade > 0,
        TradeButton::Next => container.trades.len() > 0 && container.selected_trade
            < container.trades.len() - 1,
    }
}

fn place_of(button: TradeButton, px: i32, py: i32, scale: i32) -> (rect: UiRect)
    requires
        window_fits(px as int, py as int, scale as int),
    ensures
        rect == button_rect(px as int, py as int, scale as int, button),
{
    match button {
        TradeButton::Prev => place(px, py, scale, 17, 23, 12, 19),
        TradeButton::Next => place(px, py, scale, 147, 23, 12, 19),
    }
}

/// The button under a pixel, if it can be used.
pub fn button_at(container: &Container, x: i32, y: i32, px: i32, py: i32, scale: i32) -> (button:
    Option<TradeButton>)
    requires
        window_fits(px as int, py as int, scale as int),
    ensures
        button == pressed_button(
            *container,
            x as int,
            y as int,
            px as int,
            py as int,
            scale as int,
        ),
{
    if scale == 0 || container.trades.len() == 0 {
        return None;
    }
    if is_enabled(container, TradeButton::Prev) && place_of(
        TradeButton::Prev,
        px,
        py,
        scale,
    ).contains(x, y) {
        return Some(TradeButton::Prev);
    }
    if is_enabled(container, TradeButton::Next) && place_of(
        TradeButton::Next,
        px,
        py,
        scale,
    ).contains(x, y) {
        return Some(TradeButton::Next);
    }
    None
}

/// Where a button is drawn, and the corner of its sprite: in columns for the idle,
/// the pointed at and the disabled, in rows for the two directions.
pub open spec fn button_look(
    container: Container,
    button: TradeButton,
    x: int,
    y: int,
    px: int,
    py: int,
    scale: int,
) -> (UiRect, u32, u32) {
    let rect = button_rect(px, py, scale, button);
    (
        rect,
        if !enabled(container, button) {
            200
        } else if rect.spec_contains(x, y) {
            188
        } else {
            176
        },
        match button {
            TradeButton::Prev => 19,
            TradeButton::Next => 0,
        },
    )
}

/// Where a button is drawn, and the corner of its sprite.
pub fn button_sprite(
    container: &Container,
    button: TradeButton,
    x: i32,
    y: i32,
    px: i32,
    py: i32,
    scale: i32,
) -> (sprite: (UiRect, u32, u32))
    requires
        window_fits(px as int, py as int, scale as int),
    ensures
        sprite == button_look(
            *container,
            button,
            x as int,
            y as int,
            px as int,
            py as int,
            scale as int,
        ),
{
    let rect = place_of(button, px, py, scale);
    let column: u32 = if !is_enabled(container, button) {
        200
    } else if rect.contains(x, y) {
        188
    } else {
        176
    };
    let row: u32 = match button {
        TradeButton::Prev => 19,
        TradeButton::Next => 0,
    };
    (rect, column, row)
}

/// What of the selected offer a pixel is over. The arrow counts only where the offer
/// is not to be had.
pub open spec fn offer_part(
    container: Container,
    x: int,
    y: int,
    px: int,
    py: int,
    scale: int,
) -> Option<OfferPart> {
    if container.selected_trade >= container.trades@.len() {
        None
    } else {
        let recipe = container.trades@[container.selected_trade as int];
        if window_rect(px, py, scale, 36, 24, 16, 16).spec_contains(x, y) {
            Some(OfferPart::FirstCost)
        } else if recipe.buy_secondary is Some && window_rect(
            px,
            py,
            scale,
            62,
            24,
            16,
            16,
        ).spec_contains(x, y) {
            Some(OfferPart::SecondCost)
        } else if window_rect(px, py, scale, 120, 24, 16, 16).spec_contains(x, y) {
            Some(OfferPart::Goods)
        } else if recipe.disabled && (window_rect(px, py, scale, 83, 21, 28, 21).spec_contains(x, y)
            || window_rect(px, py, scale, 83, 51, 28, 21).spec_contains(x, y)) {
            Some(OfferPart::Locked)
        } else {
            None
        }
    }
}

/// What of the selected offer a pixel is over.
pub fn offer_part_at(container: &Container, x: i32, y: i32, px: i32, py: i32, scale: i32) -> (part:
    Option<OfferPart>)
    requires
        window_fits(px as int, py as int, scale as int),
    ensures
        part == offer_part(*container, x as int, y as int, px as int, py as int, scale as int),
{
    let at = container.selected_trade;
    if at >= container.trades.len() {
        return None;
    }
    let recipe = &container.trades[at];
    if place(px, py, scale, 36, 24, 16, 16).contains(x, y) {
        Some(OfferPart::FirstCost)
    } else if recipe.buy_secondary.is_some() && place(px, py, scale, 62, 24, 16, 16).contains(x, y) {
        Some(OfferPart::SecondCost)
    } else if place(px, py, scale, 120, 24, 16, 16).contains(x, y) {
        Some(OfferPart::Goods)
    } else if recipe.disabled && (place(px, py, scale, 83, 21, 28, 21).contains(x, y) || place(
        px,
        py,
        scale,
        83,
        51,
        28,
        21,
    ).contains(x, y)) {
        Some(OfferPart::Locked)
    } else {
        None
    }
}

/// The offer that a button leads to.
pub open spec fn offer_after(container: Container, button: TradeButton) -> int {
    match button {
        TradeButton::Prev => container.selected_trade - 1,
        TradeButton::Next => container.selected_trade + 1,
    }
}

/// A button that can be pressed leads to an offer that there is.
pub proof fn law_trade_buttons_lead_to_offers(
    container: Container,
    x: int,
    y: int,
    px: int,
    py: int,
    scale: int,
)
    requires
        container.selected_trade < container.trades@.len(),
    ensures
        pressed_button(container, x, y, px, py, scale) matches Some(b) ==> 0 <= offer_after(
            container,
            b,
        ) < container.trades@.len(),
{
}

} // verus!
