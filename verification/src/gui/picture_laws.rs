//! What the pictures are for: things are drawn where they are clicked, and told of when the
//! pointer is over them.

use vstd::prelude::*;
use crate::chat::lang::Language;
use crate::chat::legacy::Font;
use crate::container::state::{Container, WindowKind};
use crate::item::SlotItem;
use crate::text::texts_of;
use super::controls::{are_control_rows, controls_picture, key_label, Binding, ControlRow};
use super::inventory::{
    effect_info, elapsed, progress_of, step_of, strength_suffix, GuiContainer,
};
use super::list_picture::{
    bar_rect, icon_marks, list_marks, ping_of, population_text, question_marks, row_marks, row_tip,
};
use super::marks::{all_buttons, GuiTexture, MarkModel, Shape, ShownItem, TextAt};
use super::menus::GuiMainMenu;
use super::merchant::{button_look, button_rect, enabled, offer_part, window_rect, OfferPart, TradeButton};
use super::multiplayer::{bar_cell, connection_text, GuiMultiplayer, PingInfo, PingOutcome};
use super::pictures::{form_marks, sliders_marks, title_screen};
use super::sound_options::{label_text, slider_at_place, slider_rect};
use super::widgets::{Screen, UiRect};
use super::window_picture::{
    anvil_marks, count_size, effect_marks, effects_marks, offer_button, offer_item, offer_marks,
    progress_marks, shows_item, slot_marks, slots_marks, spec_sheet, tip_of, title_marks,
    window_marks, Tip,
};

verus! {

/// A part of a window is drawn at its place in it, from the window's corner, and as large as
/// it is, all times the scale.
pub proof fn law_parts_are_drawn_to_scale(px: int, py: int, scale: int, x: int, y: int, w: int, h: int)
    requires
        -0x1000_0000 <= px <= 0x1000_0000,
        -0x1000_0000 <= py <= 0x1000_0000,
        0 <= scale <= 0x1_0000,
        -1024 <= x <= 1024,
        -1024 <= y <= 1024,
        0 <= w <= 1024,
        0 <= h <= 1024,
    ensures
        ({
            let r = window_rect(px, py, scale, x, y, w, h);
            &&& r.x == px + scale * x
            &&& r.y == py + scale * y
            &&& r.width == scale * w
            &&& r.height == scale * h
        }),
{
    assert(-0x400_0000 <= x * scale <= 0x400_0000 && -0x400_0000 <= y * scale <= 0x400_0000 && 0 <= w
        * scale <= 0x400_0000 && 0 <= h * scale <= 0x400_0000 && x * scale == scale * x && y * scale
        == scale * y && w * scale == scale * w && h * scale == scale * h) by (nonlinear_arith)
        requires
            0 <= scale <= 0x1_0000,
            -1024 <= x <= 1024,
            -1024 <= y <= 1024,
            0 <= w <= 1024,
            0 <= h <= 1024,
    ;
}

/// Each kind of window has its own sheet.
pub proof fn law_kinds_have_their_own_sheet(a: WindowKind, b: WindowKind)
    ensures
        spec_sheet(a) == spec_sheet(b) <==> a == b || (a is Chest && b is Chest),
        a is Player ==> spec_sheet(a) == GuiTexture::Inventory,
        a is Furnace ==> spec_sheet(a) == GuiTexture::Furnace,
        a is Villager ==> spec_sheet(a) == GuiTexture::Villager,
{
}

/// A slot shows the stack in it at the slot's own cell, and is lit exactly under the pointer.
pub proof fn law_slots_show_their_stack(
    container: Container,
    inventory: Seq<Option<SlotItem>>,
    i: int,
    hovered: Option<i16>,
    px: int,
    py: int,
    scale: int,
)
    requires
        0 <= i < container.slots@.len() <= 0x7fff,
    ensures
        ({
            let slot = container.slots@[i];
            let marks = slot_marks(container, inventory, i, hovered, px, py, scale);
            let full = container.state(inventory, None).read(container.slots@, i) is Some;
            let cell = window_rect(px, py, scale, slot.x as int, slot.y as int, 16, 16);
            &&& full ==> marks.len() > 0 && (marks[0] matches MarkModel::Shape(
                Shape::Item { rect, item, size },
            ) && rect == cell && item == ShownItem::Slot(i as usize))
            &&& hovered == Some(i as i16) ==> marks.len() > 0 && (marks.last()
                matches MarkModel::Shape(Shape::Overlay { rect, ink }) && rect == cell)
            &&& !full && hovered != Some(i as i16) ==> marks.len() == 0
            &&& full && hovered != Some(i as i16) ==> marks.len() == 1
            &&& full && hovered == Some(i as i16) ==> marks.len() == 2
        }),
{
}

/// Counts are written at the scale, but never smaller than two.
pub proof fn law_counts_stay_legible(scale: int)
    requires
        0 <= scale <= 0x1_0000,
    ensures
        count_size(scale) >= 2,
        scale >= 2 ==> count_size(scale) == scale,
{
}

/// While a stack is carried nothing is told; else the stack under the pointer is, or the part
/// of a villager's offer there.
pub proof fn law_what_is_pointed_at_is_told(
    container: Container,
    inventory: Seq<Option<SlotItem>>,
    hovered: Option<i16>,
    x: int,
    y: int,
    px: int,
    py: int,
    scale: int,
)
    ensures
        tip_of(container, inventory, true, hovered, x, y, px, py, scale) == Tip::Nothing,
        hovered matches Some(s) ==> (tip_of(
            container,
            inventory,
            false,
            hovered,
            x,
            y,
            px,
            py,
            scale,
        ) == if shows_item(container, inventory, s as int) {
            Tip::Slot(s as usize)
        } else {
            Tip::Nothing
        }),
        hovered is None && container.kind != WindowKind::Villager ==> tip_of(
            container,
            inventory,
            false,
            hovered,
            x,
            y,
            px,
            py,
            scale,
        ) == Tip::Nothing,
        hovered is None && container.kind == WindowKind::Villager ==> (offer_part(
            container,
            x,
            y,
            px,
            py,
            scale,
        ) matches Some(part) ==> tip_of(container, inventory, false, hovered, x, y, px, py, scale)
            == Tip::Offer(part)),
{
}

/// The parts of an offer are told of where they are drawn: the costs on the left, the goods
/// on the right, the second cost only where there is one.
pub proof fn law_offers_are_told_where_drawn(
    container: Container,
    x: int,
    y: int,
    px: int,
    py: int,
    scale: int,
)
    requires
        container.selected_trade < container.trades@.len(),
    ensures
        ({
            let recipe = container.trades@[container.selected_trade as int];
            let marks = offer_marks(container, x, y, px, py, scale);
            let n = marks.len() as int;
            &&& marks.contains(offer_item(OfferPart::FirstCost, 36, px, py, scale))
            &&& marks.contains(offer_item(OfferPart::Goods, 120, px, py, scale))
            &&& n == 4 + (if recipe.disabled {
                2int
            } else {
                0
            }) + (if recipe.buy_secondary is Some {
                1int
            } else {
                0
            })
            &&& marks[n - 1] == offer_button(container, TradeButton::Next, x, y, px, py, scale)
            &&& marks[n - 2] == offer_button(container, TradeButton::Prev, x, y, px, py, scale)
            &&& marks[n - 3] == offer_item(OfferPart::Goods, 120, px, py, scale)
            &&& window_rect(px, py, scale, 36, 24, 16, 16).spec_contains(x, y) ==> offer_part(
                container,
                x,
                y,
                px,
                py,
                scale,
            ) == Some(OfferPart::FirstCost)
            &&& offer_part(container, x, y, px, py, scale) == Some(OfferPart::SecondCost)
                ==> recipe.buy_secondary is Some && window_rect(
                px,
                py,
                scale,
                62,
                24,
                16,
                16,
            ).spec_contains(x, y)
            &&& offer_part(container, x, y, px, py, scale) == Some(OfferPart::Goods)
                ==> window_rect(px, py, scale, 120, 24, 16, 16).spec_contains(x, y)
        }),
{
    let recipe = container.trades@[container.selected_trade as int];
    let marks = offer_marks(container, x, y, px, py, scale);
    let n = marks.len() as int;
    assert(marks[n - 3] == offer_item(OfferPart::Goods, 120, px, py, scale));
    if recipe.buy_secondary is Some {
        assert(marks[n - 5] == offer_item(OfferPart::FirstCost, 36, px, py, scale));
    } else {
        assert(marks[n - 4] == offer_item(OfferPart::FirstCost, 36, px, py, scale));
    }
}

/// A trade button looks used up where it cannot be pressed, and lit where it is pointed at;
/// it is drawn where it is pressed.
pub proof fn law_trade_buttons_look_as_they_are(
    container: Container,
    button: TradeButton,
    x: int,
    y: int,
    px: int,
    py: int,
    scale: int,
)
    ensures
        ({
            let (rect, u, v) = button_look(container, button, x, y, px, py, scale);
            &&& rect == button_rect(px, py, scale, button)
            &&& u == 200 <==> !enabled(container, button)
            &&& u == 188 <==> enabled(container, button) && rect.spec_contains(x, y)
            &&& u == 176 <==> enabled(container, button) && !rect.spec_contains(x, y)
            &&& v == 19 <==> button == TradeButton::Prev
        }),
{
}

/// The player's own window has no title; others have their own, if they have one, and that
/// of the player's slots below.
pub proof fn law_windows_are_titled(
    container: Container,
    px: int,
    py: int,
    scale: int,
    lang: Language,
)
    ensures
        ({
            let marks = title_marks(container, px, py, scale, lang);
            &&& container.kind is Player ==> marks.len() == 0
            &&& !(container.kind is Player) ==> marks.len() > 0 && (marks.last()
                matches MarkModel::Text { at, ink, text } && text == lang.text_for(
                "container.inventory"@,
            ))
            &&& !(container.kind is Player) && container.title@.len() > 0 ==> marks.len() == 2 && (
            marks[0] matches MarkModel::Text { at, ink, text } && text == container.title@)
            &&& !(container.kind is Player) && container.title@.len() == 0 ==> marks.len() == 1
        }),
{
}

/// Only a furnace shows progress, and only what has begun.
pub proof fn law_only_furnaces_show_progress(container: Container, px: int, py: int, scale: int)
    ensures
        ({
            let marks = progress_marks(container, px, py, scale);
            let (flame, arrow) = progress_of(container.properties@);
            &&& container.kind != WindowKind::Furnace ==> marks.len() == 0
            &&& container.kind == WindowKind::Furnace ==> marks.len() == (if flame is Some {
                1int
            } else {
                0
            }) + (if arrow is Some {
                1int
            } else {
                0
            })
        }),
{
}

/// A shown effect has its panel, its icon if it has one, its name with its strength, and its
/// time; one that is not known shows nothing.
pub proof fn law_effects_are_shown_with_name_and_time(
    effect: (u8, i8, i32),
    y: int,
    px: int,
    py: int,
    scale: int,
    names: Language,
)
    ensures
        ({
            let marks = effect_marks(effect, y, px, py, scale, names);
            let n = marks.len() as int;
            &&& effect_info(effect.0) is None ==> n == 0
            &&& effect_info(effect.0) matches Some((name, icon)) ==> {
                &&& n == if icon is Some {
                    4int
                } else {
                    3
                }
                &&& (marks[n - 2] matches MarkModel::Text { at, ink, text } && text
                    == names.text_for(name@) + strength_suffix(effect.1))
                &&& (marks[n - 1] matches MarkModel::Text { at, ink, text } && text == elapsed(
                    effect.2 as int,
                ))
            }
        }),
{
}

/// The anvil's field is always drawn, and its name only where there is one.
pub proof fn law_the_anvil_shows_a_name(named: bool, px: int, py: int, scale: int)
    ensures
        anvil_marks(named, px, py, scale).len() == if named {
            2int
        } else {
            1
        },
        anvil_marks(named, px, py, scale)[0] is Shape,
{
}

/// How many players are on is told by servers that answered, and by no others.
pub proof fn law_answered_servers_tell_their_players(info: PingInfo, error: String)
    ensures
        population_text(Some(PingOutcome::Answered(info))) == Some("\u{a7}7"@ + info.players@),
        population_text(Some(PingOutcome::Failed(error))) is None,
        population_text(None) is None,
{
}

// ── Whole screens ─────────────────────────────────────────────────────────

/// The buttons of a screen are drawn in their order, each once.
pub proof fn law_all_buttons_are_drawn(n: nat, i: int)
    requires
        0 <= i < n,
        n <= usize::MAX,
    ensures
        all_buttons(n).len() == n,
        all_buttons(n)[i] matches MarkModel::Shape(Shape::Button(k)) && k == i,
{
}

/// Every full slot is drawn with its item, at its cell.
pub proof fn law_every_full_slot_is_drawn(
    container: Container,
    inventory: Seq<Option<SlotItem>>,
    n: int,
    hovered: Option<i16>,
    px: int,
    py: int,
    scale: int,
    i: int,
)
    requires
        0 <= i < n <= container.slots@.len() <= 0x7fff,
        container.state(inventory, None).read(container.slots@, i) is Some,
    ensures
        ({
            let slot = container.slots@[i];
            slots_marks(container, inventory, n, hovered, px, py, scale).contains(
                MarkModel::Shape(
                    Shape::Item {
                        rect: window_rect(px, py, scale, slot.x as int, slot.y as int, 16, 16),
                        item: ShownItem::Slot(i as usize),
                        size: count_size(scale),
                    },
                ),
            )
        }),
    decreases n,
{
    let slot = container.slots@[i];
    let mark = MarkModel::Shape(
        Shape::Item {
            rect: window_rect(px, py, scale, slot.x as int, slot.y as int, 16, 16),
            item: ShownItem::Slot(i as usize),
            size: count_size(scale),
        },
    );
    let before = slots_marks(container, inventory, n - 1, hovered, px, py, scale);
    let own = slot_marks(container, inventory, n - 1, hovered, px, py, scale);
    let all = slots_marks(container, inventory, n, hovered, px, py, scale);
    assert(all == before + own);
    if i < n - 1 {
        law_every_full_slot_is_drawn(container, inventory, n - 1, hovered, px, py, scale, i);
        let k = choose|k: int| 0 <= k < before.len() && before[k] == mark;
        assert(all[k] == mark);
    } else {
        assert(own[0] == mark);
        assert(all[before.len() as int] == mark);
    }
}

/// The carried stack is drawn last, around the pointer; without one the slots are last.
pub proof fn law_the_carried_stack_follows_the_pointer(
    screen: GuiContainer,
    container: Container,
    inventory: Seq<Option<SlotItem>>,
    effects: Seq<(u8, i8, i32)>,
    x: int,
    y: int,
    lang: Language,
    names: Language,
)
    requires
        0 <= screen.scale <= 0x1_0000,
        -0x1000_0000 <= x <= 0x1000_0000,
        -0x1000_0000 <= y <= 0x1000_0000,
    ensures
        ({
            let bare = window_marks(
                screen,
                container,
                inventory,
                false,
                effects,
                x,
                y,
                lang,
                names,
            );
            let full = window_marks(screen, container, inventory, true, effects, x, y, lang, names);
            &&& full.len() == bare.len() + 1
            &&& full.drop_last() == bare
            &&& (full.last() matches MarkModel::Shape(Shape::Item { rect, item, size }) && item
                == ShownItem::Carried && rect.x + 8 * screen.scale == x && rect.y + 8
                * screen.scale == y && rect.width == 16 * screen.scale && rect.height == rect.width)
        }),
{
    let bare = window_marks(screen, container, inventory, false, effects, x, y, lang, names);
    let full = window_marks(screen, container, inventory, true, effects, x, y, lang, names);
    assert(full.drop_last() =~= bare);
}

/// Effects are drawn one below the other, at even steps.
pub proof fn law_effects_are_drawn_at_even_steps(
    effects: Seq<(u8, i8, i32)>,
    n: int,
    px: int,
    py: int,
    scale: int,
    names: Language,
    i: int,
    j: int,
)
    requires
        0 <= i < n <= effects.len(),
        0 <= j < effect_marks(
            effects[i],
            i * step_of(effects.len() as int),
            px,
            py,
            scale,
            names,
        ).len(),
    ensures
        effects_marks(effects, n, px, py, scale, names).contains(
            effect_marks(
                effects[i],
                i * step_of(effects.len() as int),
                px,
                py,
                scale,
                names,
            )[j],
        ),
    decreases n,
{
    let step = step_of(effects.len() as int);
    let mark = effect_marks(effects[i], i * step, px, py, scale, names)[j];
    let before = effects_marks(effects, n - 1, px, py, scale, names);
    let own = effect_marks(effects[n - 1], (n - 1) * step, px, py, scale, names);
    let all = effects_marks(effects, n, px, py, scale, names);
    assert(all == before + own);
    if i < n - 1 {
        law_effects_are_drawn_at_even_steps(effects, n - 1, px, py, scale, names, i, j);
        let k = choose|k: int| 0 <= k < before.len() && before[k] == mark;
        assert(all[k] == mark);
    } else {
        assert(all[before.len() + j] == mark);
    }
}

/// Every slider is drawn at its place with the label of its volume.
pub proof fn law_sliders_are_drawn_with_their_label(
    screen: Screen,
    percents: Seq<Option<i32>>,
    n: int,
    lang: Language,
    i: int,
)
    requires
        0 <= i < n <= percents.len(),
        n <= 9,
    ensures
        sliders_marks(screen, percents, n, lang).len() == 2 * n,
        sliders_marks(screen, percents, n, lang)[2 * i] matches MarkModel::Shape(
            Shape::Slider { rect, place },
        ) && rect == slider_rect(screen, i) && place == i,
        sliders_marks(screen, percents, n, lang)[2 * i + 1] matches MarkModel::Text {
            at,
            ink,
            text,
        } && text == label_text(slider_at_place(i), percents[i], lang) && at == (TextAt::Within {
            rect: slider_rect(screen, i),
        }),
    decreases n,
{
    if i < n - 1 {
        law_sliders_are_drawn_with_their_label(screen, percents, n - 1, lang, i);
    } else if n > 1 {
        law_sliders_are_drawn_with_their_label(screen, percents, n - 1, lang, 0);
    } else {
        assert(sliders_marks(screen, percents, 0, lang).len() == 0);
    }
}

/// The rows of the controls show the actions from the scroll on, in order, each at its place
/// and with its own key.
pub proof fn law_control_rows_show_their_action(
    rows: Seq<ControlRow>,
    binding: Option<usize>,
    scroll: int,
    bindings: Seq<Binding>,
    places: Seq<UiRect>,
    scale: int,
    n: int,
    i: int,
)
    requires
        are_control_rows(rows, binding, scroll, bindings, places, scale, n),
        0 <= scroll,
        0 <= n <= places.len(),
        scroll + n <= bindings.len(),
        0 <= i < rows.len(),
    ensures
        rows.len() == n,
        rows[i].action == scroll + i,
        rows[i].conflict == bindings[scroll + i].conflict,
        rows[i].label_x == places[i].x + 4 * scale,
        rows[i].key@.label == key_label(
            binding == Some((scroll + i) as usize),
            bindings[scroll + i],
        ),
        rows[i].key@.enabled,
    decreases n,
{
    if n > 0 {
        if i < rows.len() - 1 {
            law_control_rows_show_their_action(
                rows.drop_last(),
                binding,
                scroll,
                bindings,
                places,
                scale,
                n - 1,
                i,
            );
        } else {
            lemma_control_rows_len(
                rows.drop_last(),
                binding,
                scroll,
                bindings,
                places,
                scale,
                n - 1,
            );
        }
    }
}

proof fn lemma_control_rows_len(
    rows: Seq<ControlRow>,
    binding: Option<usize>,
    scroll: int,
    bindings: Seq<Binding>,
    places: Seq<UiRect>,
    scale: int,
    n: int,
)
    requires
        are_control_rows(rows, binding, scroll, bindings, places, scale, n),
        0 <= scroll,
        0 <= n,
        scroll + n <= bindings.len(),
    ensures
        rows.len() == n,
    decreases n,
{
    if n > 0 {
        lemma_control_rows_len(rows.drop_last(), binding, scroll, bindings, places, scale, n - 1);
    }
}

/// While a key is waited for the controls say so, and at no other time.
pub proof fn law_waiting_is_told(
    scroll: i32,
    rows: Seq<ControlRow>,
    bindings: Seq<Binding>,
    visible: int,
    screen: Screen,
    lang: Language,
)
    ensures
        controls_picture(true, scroll, rows, bindings, visible, screen, lang).len()
            == controls_picture(false, scroll, rows, bindings, visible, screen, lang).len() + 1,
        ({
            let marks = controls_picture(true, scroll, rows, bindings, visible, screen, lang);
            marks[marks.len() - 2] matches MarkModel::Text { at, ink, text } && text
                == lang.text_for("fpsmaster.controls.bindHint"@)
        }),
{
}

/// A row of the list shows the server's name, is framed exactly while it is selected, and
/// ends with its bars.
pub proof fn law_rows_show_their_server(
    list: GuiMultiplayer,
    i: int,
    server: int,
    rect: UiRect,
    s: int,
    lang: Language,
    font: Font,
)
    requires
        0 <= server < list.servers@.len() <= i32::MAX,
        0 <= i <= i32::MAX,
    ensures
        ({
            let marks = row_marks(list, i, server, rect, s, lang, font);
            let cell = bar_cell(ping_of(list, server), i as i32);
            &&& marks.len() > 0
            &&& list.selected == Some(server as usize) <==> marks[0] is Shape
                && marks[0]->Shape_0 is Selection
            &&& (marks.last() matches MarkModel::Shape(
                Shape::Sprite { rect: r, sheet, u, v, width, height },
            ) && r == bar_rect(rect, s) && width == 10 && height == 8)
            &&& exists|k: int|
                0 <= k < marks.len() && (#[trigger] marks[k] matches MarkModel::Text {
                    at,
                    ink,
                    text,
                } && text == list.servers@[server].name@)
        }),
{
    let marks = row_marks(list, i, server, rect, s, lang, font);
    let ping = ping_of(list, server);
    let framed = if list.selected == Some(server as usize) {
        1int
    } else {
        0
    };
    let k = framed + icon_marks(ping, server, rect, s).len() as int;
    assert(marks[k] matches MarkModel::Text { at, ink, text } && text
        == list.servers@[server].name@);
}

/// A server that sent a picture shows it, others a plate.
pub proof fn law_servers_show_their_picture(info: PingInfo, server: int, rect: UiRect, s: int)
    requires
        0 <= server <= usize::MAX,
    ensures
        info.favicon ==> icon_marks(Some(PingOutcome::Answered(info)), server, rect, s).len() == 1 && (
        icon_marks(Some(PingOutcome::Answered(info)), server, rect, s)[0]
            matches MarkModel::Shape(Shape::Favicon { rect: r, server: k }) && k == server),
        !info.favicon ==> icon_marks(Some(PingOutcome::Answered(info)), server, rect, s).len() == 2,
        icon_marks(None, server, rect, s).len() == 2,
{
}

/// At the bars the connection is told, at the number of players their names; elsewhere
/// nothing.
pub proof fn law_rows_tell_of_what_is_pointed_at(
    ping: Option<PingOutcome>,
    rect: UiRect,
    s: int,
    x: int,
    y: int,
    font: Font,
)
    ensures
        bar_rect(rect, s).spec_contains(x, y) ==> row_tip(ping, rect, s, x, y, font) == Some(
            seq![connection_text(ping)],
        ),
        !bar_rect(rect, s).spec_contains(x, y) && !(ping is Some && ping->0 is Answered)
            ==> row_tip(ping, rect, s, x, y, font) is None,
        !bar_rect(rect, s).spec_contains(x, y) ==> (row_tip(ping, rect, s, x, y, font)
            matches Some(lines) ==> (ping matches Some(PingOutcome::Answered(info)) && lines
            == texts_of(info.sample@) && lines.len() > 0 && x < rect.x + rect.width - 17 * s)),
{
}

/// Before a server is removed the question names it.
pub proof fn law_the_question_names_the_server(
    list: GuiMultiplayer,
    index: usize,
    screen: Screen,
)
    requires
        index < list.servers@.len(),
    ensures
        question_marks(list, index, screen)[2] matches MarkModel::Text { at, ink, text } && text
            == list.servers@[index as int].name@,
        question_marks(list, index, screen).len() == 4 + list.buttons@.len(),
{
}

/// An empty list says so.
pub proof fn law_empty_lists_say_so(
    list: GuiMultiplayer,
    top: int,
    bottom: int,
    s: int,
    lang: Language,
    font: Font,
)
    ensures
        list.servers@.len() == 0 ==> (list_marks(list, top, bottom, s, lang, font)[3]
            matches MarkModel::Text { at, ink, text } && text == lang.text_for(
            "fpsmaster.multiplayer.empty"@,
        )),
        list_marks(list, top, bottom, s, lang, font)[1] matches MarkModel::Text { at, ink, text }
            && text == lang.text_for("multiplayer.title"@),
{
}

/// The title screen shows its line if it has one, and its version last.
pub proof fn law_the_title_screen_shows_its_line(
    menu: GuiMainMenu,
    screen: Screen,
    splash_width: int,
    brand: Seq<char>,
    version: Seq<char>,
)
    ensures
        ({
            let marks = title_screen(menu, screen, true, splash_width, brand, version);
            &&& (marks.last() matches MarkModel::Text { at, ink, text } && text == version)
            &&& (menu.splash matches Some(line) ==> (marks[2] matches MarkModel::Text {
                at,
                ink,
                text,
            } && text == line@) && (marks[3] matches MarkModel::Text { at, ink, text } && text
                == brand))
            &&& menu.splash is None ==> (marks[2] matches MarkModel::Text { at, ink, text } && text
                == brand)
            &&& title_screen(menu, screen, false, splash_width, brand, version).len() == marks.len()
                + 3
        }),
{
}

/// A form shows its title, its fields' names in order, the fields and the buttons.
pub proof fn law_forms_name_their_fields(
    screen: Screen,
    title: Seq<char>,
    names: Seq<(int, Seq<char>)>,
    buttons: nat,
    i: int,
)
    requires
        0 <= i < names.len() <= usize::MAX,
    ensures
        ({
            let marks = form_marks(screen, title, names, buttons);
            &&& marks.len() == 2 + 2 * names.len() + buttons
            &&& (marks[1] matches MarkModel::Text { at, ink, text } && text == title)
            &&& (marks[2 + i] matches MarkModel::Text { at, ink, text } && text == names[i].1)
            &&& (marks[2 + names.len() + i] matches MarkModel::Shape(Shape::Field(k)) && k == i)
        }),
{
}

/// A second click on the same slot within a quarter of a second is a double click; one on
/// another slot, beside the slots or later is not.
pub proof fn law_quick_clicks_are_doubled(
    screen: GuiContainer,
    slot: Option<i16>,
    again: Option<i16>,
    first: u64,
    second: u64,
)
    requires
        first <= second,
        slot != Some(-999i16),
    ensures
        again is Some ==> (screen.remembered(slot, first).doubled(again, second) <==> again == slot
            && second - first < 250 || (slot is None && again == Some(-999i16) && second - first
            < 250)),
        again is None ==> !screen.remembered(slot, first).doubled(again, second),
{
}

} // verus!
