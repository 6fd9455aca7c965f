//! What the window screen draws: the window with its sprites and titles, the active
//! effects beside it, a villager's offer, and the items in their slots.

use vstd::prelude::*;
use crate::chat::lang::Language;
use crate::container::layout::{
    kind_of_type, own_slots, player_rows, player_window_slots, window_metrics,
};
use crate::container::state::{Container, WindowKind};
use crate::item::SlotItem;
use crate::text::{append, copy_text};
use super::inventory::{
    amplifier_suffix, chest_top, effect_info, effect_panel_shown, effect_step, elapsed,
    furnace_progress, law_progress_stays_within_its_sprite, origin_of, panel_shown, potion_info,
    progress_of, step_of, strength_suffix, ticks_to_elapsed, GuiContainer,
};
use super::marks::{
    line, marks_view, put, put_all, put_text, sprite, GuiTexture, Ink, Mark, MarkModel, Shape,
    ShownItem, TextAt,
};
use super::merchant::{
    button_look, button_sprite, offer_part, offer_part_at, place, window_fits, window_rect,
    OfferPart, TradeButton,
};
use super::widgets::{Screen, UiRect};

verus! {

/// A window whose size and slots leave room for sums.
pub open spec fn drawable(container: Container) -> bool {
    &&& 0 <= container.x_size <= 1024
    &&& 0 <= container.y_size <= 1024
    &&& container.slots@.len() <= 0x7fff
    &&& forall|i: int|
        0 <= i < container.slots@.len() ==> {
            &&& -0x1800 <= (#[trigger] container.slots@[i]).x <= 0x1800
            &&& -0x1800 <= container.slots@[i].y <= 0x1800
        }
}

/// Every window that the server opens can be drawn: its own slots are counted in a
/// byte.
pub proof fn law_opened_windows_can_be_drawn(container: Container, inventory_type: Seq<char>, size: int)
    requires
        0 <= size <= 255,
        container.kind == kind_of_type(inventory_type, size),
        ({
            let (main_y, hot_y, x_size, y_size) = window_metrics(container.kind);
            &&& container.slots@ == own_slots(container.kind, size) + player_rows(main_y, hot_y)
            &&& container.x_size == x_size
            &&& container.y_size == y_size
        }),
    ensures
        drawable(container),
{
    let own = own_slots(container.kind, size);
    assert forall|i: int| 0 <= i < container.slots@.len() implies {
        &&& -0x1800 <= (#[trigger] container.slots@[i]).x <= 0x1800
        &&& -0x1800 <= container.slots@[i].y <= 0x1800
    } by {
        if i < own.len() {
            assert(container.slots@[i] == own[i]);
        }
    }
}

/// The player's own window can be drawn.
pub proof fn law_the_players_window_can_be_drawn(container: Container)
    requires
        container.slots@ == player_window_slots(),
        container.x_size == 176,
        container.y_size == 166,
    ensures
        drawable(container),
{
}

// ── The window itself ─────────────────────────────────────────────────────

/// The sheet that a kind of window is drawn from.
pub open spec fn spec_sheet(kind: WindowKind) -> GuiTexture {
    match kind {
        WindowKind::Player => GuiTexture::Inventory,
        WindowKind::Chest(_) => GuiTexture::Chest,
        WindowKind::Dispenser => GuiTexture::Dispenser,
        WindowKind::Hopper => GuiTexture::Hopper,
        WindowKind::Furnace => GuiTexture::Furnace,
        WindowKind::Crafting => GuiTexture::CraftingTable,
        WindowKind::Brewing => GuiTexture::BrewingStand,
        WindowKind::Enchant => GuiTexture::EnchantingTable,
        WindowKind::Anvil => GuiTexture::Anvil,
        WindowKind::Beacon => GuiTexture::Beacon,
        WindowKind::Villager => GuiTexture::Villager,
    }
}

fn sheet_of(kind: WindowKind) -> (sheet: GuiTexture)
    ensures
        sheet == spec_sheet(kind),
{
    match kind {
        WindowKind::Player => GuiTexture::Inventory,
        WindowKind::Chest(_) => GuiTexture::Chest,
        WindowKind::Dispenser => GuiTexture::Dispenser,
        WindowKind::Hopper => GuiTexture::Hopper,
        WindowKind::Furnace => GuiTexture::Furnace,
        WindowKind::Crafting => GuiTexture::CraftingTable,
        WindowKind::Brewing => GuiTexture::BrewingStand,
        WindowKind::Enchant => GuiTexture::EnchantingTable,
        WindowKind::Anvil => GuiTexture::Anvil,
        WindowKind::Beacon => GuiTexture::Beacon,
        WindowKind::Villager => GuiTexture::Villager,
    }
}

/// The window's picture: one piece, but for a chest its rows and what is below them.
pub open spec fn background_marks(container: Container, px: int, py: int, scale: int) -> Seq<
    MarkModel,
> {
    let (w, h) = (container.x_size as int, container.y_size as int);
    match container.kind {
        WindowKind::Chest(rows) => {
            let top = rows * 18 + 17;
            seq![
                sprite(
                    window_rect(px, py, scale, 0, 0, w, top),
                    GuiTexture::Chest,
                    0,
                    0,
                    w,
                    top,
                ),
                sprite(
                    window_rect(px, py, scale, 0, top, w, 96),
                    GuiTexture::Chest,
                    0,
                    126,
                    w,
                    96,
                ),
            ]
        },
        kind => seq![
            sprite(window_rect(px, py, scale, 0, 0, w, h), spec_sheet(kind), 0, 0, w, h),
        ],
    }
}

/// Draw the window's picture.
pub fn draw_background(container: &Container, px: i32, py: i32, scale: i32) -> (marks: Vec<Mark>)
    requires
        drawable(*container),
        window_fits(px as int, py as int, scale as int),
    ensures
        marks_view(marks@) == background_marks(*container, px as int, py as int, scale as int),
{
    let mut marks: Vec<Mark> = Vec::new();
    let (w, h): (i32, i32) = (container.x_size, container.y_size);
    match container.kind {
        WindowKind::Chest(rows) => {
            let top: i32 = chest_top(rows);
            put(
                &mut marks,
                Shape::Sprite {
                    rect: place(px, py, scale, 0, 0, w, top),
                    sheet: GuiTexture::Chest,
                    u: 0,
                    v: 0,
                    width: w as u32,
                    height: top as u32,
                },
            );
            put(
                &mut marks,
                Shape::Sprite {
                    rect: place(px, py, scale, 0, top, w, 96),
                    sheet: GuiTexture::Chest,
                    u: 0,
                    v: 126,
                    width: w as u32,
                    height: 96,
                },
            );
        },
        kind => {
            put(
                &mut marks,
                Shape::Sprite {
                    rect: place(px, py, scale, 0, 0, w, h),
                    sheet: sheet_of(kind),
                    u: 0,
                    v: 0,
                    width: w as u32,
                    height: h as u32,
                },
            );
        },
    }
    assert(marks_view(marks@) =~= background_marks(
        *container,
        px as int,
        py as int,
        scale as int,
    ));
    marks
}

/// The flame and the arrow of a furnace: the flame grows from below, the arrow from
/// the left.
pub open spec fn progress_marks(container: Container, px: int, py: int, scale: int) -> Seq<
    MarkModel,
> {
    let (flame, arrow) = progress_of(container.properties@);
    if container.kind != WindowKind::Furnace {
        Seq::empty()
    } else {
        (match flame {
            Some(k) => seq![
                sprite(
                    window_rect(px, py, scale, 56, 48 - k, 14, k + 1),
                    GuiTexture::Furnace,
                    176,
                    12 - k,
                    14,
                    k + 1,
                ),
            ],
            None => Seq::empty(),
        }) + (match arrow {
            Some(l) => seq![
                sprite(
                    window_rect(px, py, scale, 79, 34, l + 1, 16),
                    GuiTexture::Furnace,
                    176,
                    14,
                    l + 1,
                    16,
                ),
            ],
            None => Seq::empty(),
        })
    }
}

/// Draw the flame and the arrow of a furnace.
pub fn draw_progress(container: &Container, px: i32, py: i32, scale: i32) -> (marks: Vec<Mark>)
    requires
        window_fits(px as int, py as int, scale as int),
    ensures
        marks_view(marks@) == progress_marks(*container, px as int, py as int, scale as int),
{
    let mut marks: Vec<Mark> = Vec::new();
    let (flame, arrow) = furnace_progress(container);
    proof {
        law_progress_stays_within_its_sprite(container.properties@);
    }
    if let Some(k) = flame {
        put(
            &mut marks,
            Shape::Sprite {
                rect: place(px, py, scale, 56, 48 - k, 14, k + 1),
                sheet: GuiTexture::Furnace,
                u: 176,
                v: (12 - k) as u32,
                width: 14,
                height: (k + 1) as u32,
            },
        );
    }
    if let Some(l) = arrow {
        put(
            &mut marks,
            Shape::Sprite {
                rect: place(px, py, scale, 79, 34, l + 1, 16),
                sheet: GuiTexture::Furnace,
                u: 176,
                v: 14,
                width: (l + 1) as u32,
                height: 16,
            },
        );
    }
    assert(marks_view(marks@) =~= progress_marks(
        *container,
        px as int,
        py as int,
        scale as int,
    ));
    marks
}

/// The titles of a window: its own, if it has one, and that of the player's slots. The
/// player's own window has none.
pub open spec fn title_marks(
    container: Container,
    px: int,
    py: int,
    scale: int,
    lang: Language,
) -> Seq<MarkModel> {
    let ink = Ink::Rgba(64, 64, 64, 255);
    let x = (px + 8 * scale) as i32;
    if container.kind == WindowKind::Player {
        Seq::empty()
    } else {
        (if container.title@.len() > 0 {
            seq![line(TextAt::Plain { x, y: (py + 6 * scale) as i32 }, ink, container.title@)]
        } else {
            Seq::empty()
        }) + seq![
            line(
                TextAt::Plain { x, y: (py + (container.y_size - 94) * scale) as i32 },
                ink,
                lang.text_for("container.inventory"@),
            ),
        ]
    }
}

/// Draw the titles of a window.
pub fn draw_titles(container: &Container, px: i32, py: i32, scale: i32, lang: &Language) -> (marks:
    Vec<Mark>)
    requires
        drawable(*container),
        window_fits(px as int, py as int, scale as int),
    ensures
        marks_view(marks@) == title_marks(
            *container,
            px as int,
            py as int,
            scale as int,
            *lang,
        ),
{
    let mut marks: Vec<Mark> = Vec::new();
    if container.kind != WindowKind::Player {
        let ink = Ink::Rgba(64, 64, 64, 255);
        let own = place(px, py, scale, 8, 6, 0, 0);
        if container.title.as_str().unicode_len() > 0 {
            put_text(
                &mut marks,
                TextAt::Plain { x: own.x, y: own.y },
                ink,
                copy_text(container.title.as_str()),
            );
        }
        let below = place(px, py, scale, 8, container.y_size - 94, 0, 0);
        put_text(
            &mut marks,
            TextAt::Plain { x: below.x, y: below.y },
            ink,
            lang.tr("container.inventory"),
        );
    }
    assert(marks_view(marks@) =~= title_marks(
        *container,
        px as int,
        py as int,
        scale as int,
        *lang,
    ));
    marks
}

// ── The active effects ────────────────────────────────────────────────────

/// An effect at a height: its panel, its icon, its name and how long it lasts.
/// Nothing for an effect that there is none of.
pub open spec fn effect_marks(
    effect: (u8, i8, i32),
    y: int,
    px: int,
    py: int,
    scale: int,
    names: Language,
) -> Seq<MarkModel> {
    match effect_info(effect.0) {
        Some((name, icon)) => seq![
            sprite(
                window_rect(px, py, scale, -124, y, 140, 32),
                GuiTexture::Inventory,
                0,
                166,
                140,
                32,
            ),
        ] + (match icon {
            Some((column, row)) => seq![
                sprite(
                    window_rect(px, py, scale, -118, y + 7, 18, 18),
                    GuiTexture::Inventory,
                    column * 18,
                    198 + row * 18,
                    18,
                    18,
                ),
            ],
            None => Seq::empty(),
        }) + seq![
            line(
                TextAt::Shadowed {
                    x: (px + -96 * scale) as i32,
                    y: (py + (y + 6) * scale) as i32,
                },
                Ink::Rgba(255, 255, 255, 255),
                names.text_for(name@) + strength_suffix(effect.1),
            ),
            line(
                TextAt::Shadowed {
                    x: (px + -96 * scale) as i32,
                    y: (py + (y + 16) * scale) as i32,
                },
                Ink::Rgba(127, 127, 127, 255),
                elapsed(effect.2 as int),
            ),
        ],
        None => Seq::empty(),
    }
}

/// The first `n` of the active effects.
pub open spec fn effects_marks(
    effects: Seq<(u8, i8, i32)>,
    n: int,
    px: int,
    py: int,
    scale: int,
    names: Language,
) -> Seq<MarkModel>
    decreases n,
{
    if n <= 0 {
        Seq::empty()
    } else {
        effects_marks(effects, n - 1, px, py, scale, names) + effect_marks(
            effects[n - 1],
            (n - 1) * step_of(effects.len() as int),
            px,
            py,
            scale,
            names,
        )
    }
}

fn draw_effect(
    marks: &mut Vec<Mark>,
    effect: (u8, i8, i32),
    y: i32,
    px: i32,
    py: i32,
    scale: i32,
    names: &Language,
)
    requires
        window_fits(px as int, py as int, scale as int),
        0 <= y <= 132,
    ensures
        marks_view(final(marks)@) == marks_view(old(marks)@) + effect_marks(
            effect,
            y as int,
            px as int,
            py as int,
            scale as int,
            *names,
        ),
{
    let ghost before = marks_view(marks@);
    if let Some((name, icon)) = potion_info(effect.0) {
        put(
            marks,
            Shape::Sprite {
                rect: place(px, py, scale, -124, y, 140, 32),
                sheet: GuiTexture::Inventory,
                u: 0,
                v: 166,
                width: 140,
                height: 32,
            },
        );
        if let Some((column, row)) = icon {
            put(
                marks,
                Shape::Sprite {
                    rect: place(px, py, scale, -118, y + 7, 18, 18),
                    sheet: GuiTexture::Inventory,
                    u: column * 18,
                    v: 198 + row * 18,
                    width: 18,
                    height: 18,
                },
            );
        }
        let mut label = names.tr(name);
        append(&mut label, amplifier_suffix(effect.1));
        let at = place(px, py, scale, -96, y + 6, 0, 0);
        put_text(
            marks,
            TextAt::Shadowed { x: at.x, y: at.y },
            Ink::Rgba(255, 255, 255, 255),
            label,
        );
        let below = place(px, py, scale, -96, y + 16, 0, 0);
        put_text(
            marks,
            TextAt::Shadowed { x: below.x, y: below.y },
            Ink::Rgba(127, 127, 127, 255),
            ticks_to_elapsed(effect.2),
        );
    }
    assert(marks_view(marks@) =~= before + effect_marks(
        effect,
        y as int,
        px as int,
        py as int,
        scale as int,
        *names,
    ));
}

proof fn lemma_step(count: int, n: int)
    requires
        0 <= n < count,
    ensures
        0 <= n * step_of(count) <= 132,
{
    if count > 5 {
        let step = 132int / (count - 1);
        assert(0 <= step && step * (count - 1) <= 132) by (nonlinear_arith)
            requires
                count > 5,
                step == 132int / (count - 1),
        ;
        assert(0 <= n * step <= (count - 1) * step) by (nonlinear_arith)
            requires
                0 <= n <= count - 1,
                0 <= step,
        ;
        assert((count - 1) * step == step * (count - 1)) by (nonlinear_arith);
    }
}

/// Draw the active effects to the left of the window, each with its name, strength
/// and remaining time; closer together where there are more than five.
pub fn draw_active_potion_effects(
    effects: &Vec<(u8, i8, i32)>,
    px: i32,
    py: i32,
    scale: i32,
    names: &Language,
) -> (marks: Vec<Mark>)
    requires
        window_fits(px as int, py as int, scale as int),
        effects@.len() <= i32::MAX,
    ensures
        marks_view(marks@) == effects_marks(
            effects@,
            effects@.len() as int,
            px as int,
            py as int,
            scale as int,
            *names,
        ),
{
    let mut marks: Vec<Mark> = Vec::new();
    let step: i32 = effect_step(effects.len());
    let mut i: usize = 0;
    assert(marks_view(marks@) =~= Seq::<MarkModel>::empty());
    while i < effects.len()
        invariant
            i <= effects@.len() <= i32::MAX,
            step == step_of(effects@.len() as int),
            window_fits(px as int, py as int, scale as int),
            marks_view(marks@) == effects_marks(
                effects@,
                i as int,
                px as int,
                py as int,
                scale as int,
                *names,
            ),
        decreases effects@.len() - i,
    {
        proof {
            lemma_step(effects@.len() as int, i as int);
        }
        draw_effect(&mut marks, effects[i], i as i32 * step, px, py, scale, names);
        i += 1;
    }
    marks
}

/// The field with the name of the item that an anvil works on.
pub open spec fn anvil_marks(named: bool, px: int, py: int, scale: int) -> Seq<MarkModel> {
    let field = window_rect(px, py, scale, 26, 24, 110, 16);
    seq![MarkModel::Shape(Shape::Fill { rect: field, ink: Ink::Rgba(0, 0, 0, 128) })] + if named {
        seq![
            MarkModel::Shape(
                Shape::ItemName {
                    x: (px + 33 * scale) as i32,
                    y: (py + 28 * scale) as i32,
                    ink: Ink::Rgba(224, 224, 224, 255),
                    slot: 0,
                },
            ),
        ]
    } else {
        Seq::empty()
    }
}

/// Draw the field with the name of the item that an anvil works on.
pub fn draw_anvil_field(named: bool, px: i32, py: i32, scale: i32) -> (marks: Vec<Mark>)
    requires
        window_fits(px as int, py as int, scale as int),
    ensures
        marks_view(marks@) == anvil_marks(named, px as int, py as int, scale as int),
{
    let mut marks: Vec<Mark> = Vec::new();
    put(
        &mut marks,
        Shape::Fill { rect: place(px, py, scale, 26, 24, 110, 16), ink: Ink::Rgba(0, 0, 0, 128) },
    );
    if named {
        let at = place(px, py, scale, 33, 28, 0, 0);
        put(
            &mut marks,
            Shape::ItemName { x: at.x, y: at.y, ink: Ink::Rgba(224, 224, 224, 255), slot: 0 },
        );
    }
    assert(marks_view(marks@) =~= anvil_marks(named, px as int, py as int, scale as int));
    marks
}

// ── The offer ─────────────────────────────────────────────────────────────

/// An item of the selected offer.
pub open spec fn offer_item(part: OfferPart, x: int, px: int, py: int, scale: int) -> MarkModel {
    MarkModel::Shape(
        Shape::Item {
            rect: window_rect(px, py, scale, x, 24, 16, 16),
            item: ShownItem::Offer(part),
            size: count_size(scale),
        },
    )
}

/// The size of the letters of a count: at least two pixels to one of theirs.
pub open spec fn count_size(scale: int) -> i32 {
    if scale < 2 {
        2
    } else {
        scale as i32
    }
}

/// A button of the offer.
pub open spec fn offer_button(
    container: Container,
    button: TradeButton,
    x: int,
    y: int,
    px: int,
    py: int,
    scale: int,
) -> MarkModel {
    let look = button_look(container, button, x, y, px, py, scale);
    sprite(look.0, GuiTexture::Villager, look.1 as int, look.2 as int, 12, 19)
}

/// The selected offer with the pointer at a pixel: the crossed arrows where it is not
/// to be had, the costs, the goods and the buttons. Nothing where none is selected.
pub open spec fn offer_marks(
    container: Container,
    x: int,
    y: int,
    px: int,
    py: int,
    scale: int,
) -> Seq<MarkModel> {
    if container.selected_trade >= container.trades@.len() {
        Seq::empty()
    } else {
        let recipe = container.trades@[container.selected_trade as int];
        (if recipe.disabled {
            seq![
                sprite(
                    window_rect(px, py, scale, 83, 21, 28, 21),
                    GuiTexture::Villager,
                    212,
                    0,
                    28,
                    21,
                ),
                sprite(
                    window_rect(px, py, scale, 83, 51, 28, 21),
                    GuiTexture::Villager,
                    212,
                    0,
                    28,
                    21,
                ),
            ]
        } else {
            Seq::empty()
        }) + seq![offer_item(OfferPart::FirstCost, 36, px, py, scale)]
            + (if recipe.buy_secondary is Some {
            seq![offer_item(OfferPart::SecondCost, 62, px, py, scale)]
        } else {
            Seq::empty()
        }) + seq![
            offer_item(OfferPart::Goods, 120, px, py, scale),
            offer_button(container, TradeButton::Prev, x, y, px, py, scale),
            offer_button(container, TradeButton::Next, x, y, px, py, scale),
        ]
    }
}

fn letters(scale: i32) -> (size: i32)
    ensures
        size == count_size(scale as int),
{
    if scale < 2 {
        2
    } else {
        scale
    }
}

fn put_offer_item(marks: &mut Vec<Mark>, part: OfferPart, x: i32, px: i32, py: i32, scale: i32)
    requires
        window_fits(px as int, py as int, scale as int),
        0 <= x <= 256,
    ensures
        marks_view(final(marks)@) == marks_view(old(marks)@).push(
            offer_item(part, x as int, px as int, py as int, scale as int),
        ),
{
    put(
        marks,
        Shape::Item {
            rect: place(px, py, scale, x, 24, 16, 16),
            item: ShownItem::Offer(part),
            size: letters(scale),
        },
    );
}

fn put_offer_button(
    marks: &mut Vec<Mark>,
    container: &Container,
    button: TradeButton,
    x: i32,
    y: i32,
    px: i32,
    py: i32,
    scale: i32,
)
    requires
        window_fits(px as int, py as int, scale as int),
    ensures
        marks_view(final(marks)@) == marks_view(old(marks)@).push(
            offer_button(
                *container,
                button,
                x as int,
                y as int,
                px as int,
                py as int,
                scale as int,
            ),
        ),
{
    let (rect, u, v) = button_sprite(container, button, x, y, px, py, scale);
    put(
        marks,
        Shape::Sprite { rect, sheet: GuiTexture::Villager, u, v, width: 12, height: 19 },
    );
}

/// Draw the selected offer.
pub fn draw_offer(container: &Container, x: i32, y: i32, px: i32, py: i32, scale: i32) -> (marks:
    Vec<Mark>)
    requires
        window_fits(px as int, py as int, scale as int),
    ensures
        marks_view(marks@) == offer_marks(
            *container,
            x as int,
            y as int,
            px as int,
            py as int,
            scale as int,
        ),
{
    let mut marks: Vec<Mark> = Vec::new();
    let at = container.selected_trade;
    if at < container.trades.len() {
        let recipe = &container.trades[at];
        if recipe.disabled {
            put(
                &mut marks,
                Shape::Sprite {
                    rect: place(px, py, scale, 83, 21, 28, 21),
                    sheet: GuiTexture::Villager,
                    u: 212,
                    v: 0,
                    width: 28,
                    height: 21,
                },
            );
            put(
                &mut marks,
                Shape::Sprite {
                    rect: place(px, py, scale, 83, 51, 28, 21),
                    sheet: GuiTexture::Villager,
                    u: 212,
                    v: 0,
                    width: 28,
                    height: 21,
                },
            );
        }
        put_offer_item(&mut marks, OfferPart::FirstCost, 36, px, py, scale);
        if recipe.buy_secondary.is_some() {
            put_offer_item(&mut marks, OfferPart::SecondCost, 62, px, py, scale);
        }
        put_offer_item(&mut marks, OfferPart::Goods, 120, px, py, scale);
        put_offer_button(&mut marks, container, TradeButton::Prev, x, y, px, py, scale);
        put_offer_button(&mut marks, container, TradeButton::Next, x, y, px, py, scale);
    }
    assert(marks_view(marks@) =~= offer_marks(
        *container,
        x as int,
        y as int,
        px as int,
        py as int,
        scale as int,
    ));
    marks
}

// ── The whole screen ──────────────────────────────────────────────────────

/// What is told of what the pointer is over.
#[derive(Debug, Clone, Copy, PartialEq, Eq, Structural)]
pub enum Tip {
    Nothing,
    /// The item in a slot.
    Slot(usize),
    Offer(OfferPart),
}

/// Whether a slot of a window shows an item.
pub open spec fn shows_item(container: Container, inventory: Seq<Option<SlotItem>>, i: int) -> bool {
    0 <= i < container.slots@.len() && container.state(inventory, None).read(
        container.slots@,
        i,
    ) is Some
}

/// A slot: its item, and a highlight where the pointer is.
pub open spec fn slot_marks(
    container: Container,
    inventory: Seq<Option<SlotItem>>,
    i: int,
    hovered: Option<i16>,
    px: int,
    py: int,
    scale: int,
) -> Seq<MarkModel> {
    let slot = container.slots@[i];
    let cell = window_rect(px, py, scale, slot.x as int, slot.y as int, 16, 16);
    (if shows_item(container, inventory, i) {
        seq![
            MarkModel::Shape(
                Shape::Item {
                    rect: cell,
                    item: ShownItem::Slot(i as usize),
                    size: count_size(scale),
                },
            ),
        ]
    } else {
        Seq::empty()
    }) + (if hovered == Some(i as i16) {
        seq![MarkModel::Shape(Shape::Overlay { rect: cell, ink: Ink::Rgba(255, 255, 255, 128) })]
    } else {
        Seq::empty()
    })
}

/// The first `n` slots of a window.
pub open spec fn slots_marks(
    container: Container,
    inventory: Seq<Option<SlotItem>>,
    n: int,
    hovered: Option<i16>,
    px: int,
    py: int,
    scale: int,
) -> Seq<MarkModel>
    decreases n,
{
    if n <= 0 {
        Seq::empty()
    } else {
        slots_marks(container, inventory, n - 1, hovered, px, py, scale) + slot_marks(
            container,
            inventory,
            n - 1,
            hovered,
            px,
            py,
            scale,
        )
    }
}

fn draw_slots(
    container: &Container,
    inventory: &Vec<Option<SlotItem>>,
    hovered: Option<i16>,
    px: i32,
    py: i32,
    scale: i32,
) -> (marks: Vec<Mark>)
    requires
        drawable(*container),
        window_fits(px as int, py as int, scale as int),
    ensures
        marks_view(marks@) == slots_marks(
            *container,
            inventory@,
            container.slots@.len() as int,
            hovered,
            px as int,
            py as int,
            scale as int,
        ),
{
    let mut marks: Vec<Mark> = Vec::new();
    let mut i: usize = 0;
    assert(marks_view(marks@) =~= Seq::<MarkModel>::empty());
    while i < container.slots.len()
        invariant
            i <= container.slots@.len(),
            drawable(*container),
            window_fits(px as int, py as int, scale as int),
            marks_view(marks@) == slots_marks(
                *container,
                inventory@,
                i as int,
                hovered,
                px as int,
                py as int,
                scale as int,
            ),
        decreases container.slots@.len() - i,
    {
        let ghost before = marks_view(marks@);
        let slot = container.slots[i];
        let cell = place(px, py, scale, slot.x, slot.y, 16, 16);
        if container.slot_item(i, inventory).is_some() {
            put(
                &mut marks,
                Shape::Item { rect: cell, item: ShownItem::Slot(i), size: letters(scale) },
            );
        }
        if hovered == Some(i as i16) {
            put(
                &mut marks,
                Shape::Overlay { rect: cell, ink: Ink::Rgba(255, 255, 255, 128) },
            );
        }
        assert(marks_view(marks@) =~= before + slot_marks(
            *container,
            inventory@,
            i as int,
            hovered,
            px as int,
            py as int,
            scale as int,
        ));
        i += 1;
    }
    marks
}

/// What lies below the slots: the panel, the window's picture and titles, and what its
/// kind adds.
pub open spec fn under_slots(
    container: Container,
    inventory: Seq<Option<SlotItem>>,
    effects: Seq<(u8, i8, i32)>,
    x: int,
    y: int,
    px: int,
    py: int,
    scale: int,
    lang: Language,
    names: Language,
) -> Seq<MarkModel> {
    let panel = window_rect(
        px,
        py,
        scale,
        0,
        0,
        container.x_size as int,
        container.y_size as int,
    );
    seq![MarkModel::Shape(Shape::Fill { rect: panel, ink: Ink::Rgba(0, 0, 0, 210) })]
        + background_marks(container, px, py, scale) + progress_marks(container, px, py, scale)
        + title_marks(container, px, py, scale, lang) + (if panel_shown(
        container,
        effects.len() > 0,
    ) {
        effects_marks(effects, effects.len() as int, px, py, scale, names)
    } else {
        Seq::empty()
    }) + (match container.kind {
        WindowKind::Enchant => seq![MarkModel::Shape(Shape::EnchantOptions)],
        WindowKind::Anvil => anvil_marks(shows_item(container, inventory, 0), px, py, scale),
        WindowKind::Villager => offer_marks(container, x, y, px, py, scale),
        _ => Seq::empty(),
    })
}

fn draw_under_slots(
    container: &Container,
    inventory: &Vec<Option<SlotItem>>,
    effects: &Vec<(u8, i8, i32)>,
    x: i32,
    y: i32,
    px: i32,
    py: i32,
    scale: i32,
    lang: &Language,
    names: &Language,
) -> (marks: Vec<Mark>)
    requires
        drawable(*container),
        window_fits(px as int, py as int, scale as int),
        effects@.len() <= i32::MAX,
    ensures
        marks_view(marks@) == under_slots(
            *container,
            inventory@,
            effects@,
            x as int,
            y as int,
            px as int,
            py as int,
            scale as int,
            *lang,
            *names,
        ),
{
    let mut marks: Vec<Mark> = Vec::new();
    put(
        &mut marks,
        Shape::Fill {
            rect: place(px, py, scale, 0, 0, container.x_size, container.y_size),
            ink: Ink::Rgba(0, 0, 0, 210),
        },
    );
    put_all(&mut marks, draw_background(container, px, py, scale));
    put_all(&mut marks, draw_progress(container, px, py, scale));
    put_all(&mut marks, draw_titles(container, px, py, scale, lang));
    if effect_panel_shown(container, effects.len() > 0) {
        put_all(&mut marks, draw_active_potion_effects(effects, px, py, scale, names));
    }
    match container.kind {
        WindowKind::Enchant => put(&mut marks, Shape::EnchantOptions),
        WindowKind::Anvil => {
            let named = container.slot_item(0, inventory).is_some();
            put_all(&mut marks, draw_anvil_field(named, px, py, scale));
        },
        WindowKind::Villager => put_all(&mut marks, draw_offer(container, x, y, px, py, scale)),
        _ => {},
    }
    assert(marks_view(marks@) =~= under_slots(
        *container,
        inventory@,
        effects@,
        x as int,
        y as int,
        px as int,
        py as int,
        scale as int,
        *lang,
        *names,
    ));
    marks
}

/// What is told of what the pointer is over: of the item in the slot there, or of the
/// part of a villager's offer; nothing while a stack is carried.
pub open spec fn tip_of(
    container: Container,
    inventory: Seq<Option<SlotItem>>,
    carries: bool,
    hovered: Option<i16>,
    x: int,
    y: int,
    px: int,
    py: int,
    scale: int,
) -> Tip {
    if carries {
        Tip::Nothing
    } else {
        match hovered {
            Some(slot) => if shows_item(container, inventory, slot as int) {
                Tip::Slot(slot as usize)
            } else {
                Tip::Nothing
            },
            None => if container.kind == WindowKind::Villager {
                match offer_part(container, x, y, px, py, scale) {
                    Some(part) => Tip::Offer(part),
                    None => Tip::Nothing,
                }
            } else {
                Tip::Nothing
            },
        }
    }
}

/// The whole window, as the screen has it in place.
pub open spec fn window_marks(
    screen: GuiContainer,
    container: Container,
    inventory: Seq<Option<SlotItem>>,
    carries: bool,
    effects: Seq<(u8, i8, i32)>,
    x: int,
    y: int,
    lang: Language,
    names: Language,
) -> Seq<MarkModel> {
    let (px, py, scale) = (screen.px as int, screen.py as int, screen.scale as int);
    under_slots(container, inventory, effects, x, y, px, py, scale, lang, names) + slots_marks(
        container,
        inventory,
        container.slots@.len() as int,
        screen.slot_of(x, y, container),
        px,
        py,
        scale,
    ) + if carries {
        seq![
            MarkModel::Shape(
                Shape::Item {
                    rect: UiRect {
                        x: (x - 8 * scale) as i32,
                        y: (y - 8 * scale) as i32,
                        width: (16 * scale) as i32,
                        height: (16 * scale) as i32,
                    },
                    item: ShownItem::Carried,
                    size: count_size(scale),
                },
            ),
        ]
    } else {
        Seq::empty()
    }
}

impl GuiContainer {
    /// Draw the window that is open: put it in place, and say what is drawn and what is
    /// told of what the pointer is over. The carried stack is drawn around the pointer.
    pub fn draw(
        &mut self,
        screen: &Screen,
        container: Option<&Container>,
        inventory: &Vec<Option<SlotItem>>,
        carries: bool,
        effects: &Vec<(u8, i8, i32)>,
        x: i32,
        y: i32,
        lang: &Language,
        names: &Language,
    ) -> (picture: (Vec<Mark>, Tip))
        requires
            screen.wf(),
            container matches Some(c) ==> drawable(*c),
            effects@.len() <= i32::MAX,
            -0x4000_0000 <= x <= 0x4000_0000,
            -0x4000_0000 <= y <= 0x4000_0000,
        ensures
            match container {
                None => {
                    &&& picture.0@ == Seq::<Mark>::empty()
                    &&& picture.1 == Tip::Nothing
                    &&& *final(self) == *old(self)
                },
                Some(c) => {
                    &&& (final(self).px as int, final(self).py as int) == origin_of(
                        *screen,
                        *c,
                        effects@.len() > 0,
                    )
                    &&& *final(self) == (GuiContainer {
                        px: final(self).px,
                        py: final(self).py,
                        scale: screen.scale,
                        ..*old(self)
                    })
                    &&& marks_view(picture.0@) == window_marks(
                        *final(self),
                        *c,
                        inventory@,
                        carries,
                        effects@,
                        x as int,
                        y as int,
                        *lang,
                        *names,
                    )
                    &&& picture.1 == tip_of(
                        *c,
                        inventory@,
                        carries,
                        final(self).slot_of(x as int, y as int, *c),
                        x as int,
                        y as int,
                        final(self).px as int,
                        final(self).py as int,
                        screen.scale as int,
                    )
                },
            },
    {
        let container = match container {
            Some(c) => c,
            None => return (Vec::new(), Tip::Nothing),
        };
        self.layout(screen, container, effects.len() > 0);
        let (px, py, scale): (i32, i32, i32) = (self.px, self.py, self.scale);
        let hovered = self.slot_at(x, y, container);
        let mut marks = draw_under_slots(
            container,
            inventory,
            effects,
            x,
            y,
            px,
            py,
            scale,
            lang,
            names,
        );
        put_all(&mut marks, draw_slots(container, inventory, hovered, px, py, scale));
        let mut tip = Tip::Nothing;
        if carries {
            put(
                &mut marks,
                Shape::Item {
                    rect: UiRect {
                        x: x - 8 * scale,
                        y: y - 8 * scale,
                        width: 16 * scale,
                        height: 16 * scale,
                    },
                    item: ShownItem::Carried,
                    size: letters(scale),
                },
            );
        } else if let Some(slot) = hovered {
            if slot >= 0 && container.slot_item(slot as usize, inventory).is_some() {
                tip = Tip::Slot(slot as usize);
            }
        } else if container.kind == WindowKind::Villager {
            if let Some(part) = offer_part_at(container, x, y, px, py, scale) {
                tip = Tip::Offer(part);
            }
        }
        assert(marks_view(marks@) =~= window_marks(
            *self,
            *container,
            inventory@,
            carries,
            effects@,
            x as int,
            y as int,
            *lang,
            *names,
        ));
        (marks, tip)
    }
}

} // verus!
