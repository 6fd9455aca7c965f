//! What the screens are for: buttons do what they say, lists show and move their rows, and
//! what is entered is what is kept or sent.

use vstd::prelude::*;
use crate::chat::component::ClickAction;
use crate::chat::lang::Language;
use crate::chat::state::{token_start, ChatState};
use crate::game::worldgen::DemoKind;
use crate::packets::ServerboundPacket;
use crate::text::{decimal, lines_of, trimmed, trimmed_end, trimmed_start, whitespace};
use super::chat_screen::{chat_clicked, chat_key, region_from, GuiChat};
use super::controls::{
    action_from, controls_clicked, controls_key, furthest, key_label, leaves_settings, wheeled,
    Binding, GuiControls,
};
use super::edit_server::{
    direct_clicked, direct_key, edit_clicked, edit_key, entries_view, entry_of, field_rect,
    with_entry, EntryModel, GuiDirectConnect, GuiEditServer, ServerEntry,
};
use super::menus::{
    demo_action, demo_buttons, ingame_menu_action, ingame_menu_buttons, main_menu_action,
    main_menu_buttons, picked, splash_start,
};
use super::multiplayer::{
    answered, are_rows, bar_cell, connection_text, kept_scroll, list_buttons, list_clicked,
    list_key, row_from, scrolled_to, server_moved, server_removed, status_text, stepped,
    GuiMultiplayer, PingInfo, PingOutcome,
};
use super::shaders::{
    on_off_text, shader_buttons, shader_clicked, toggle_at, GuiShaders, ShaderSettings,
};
use super::sound_options::{
    label_text, slider_at_place, slider_from, slider_rect, sounds_clicked, sounds_released,
    GuiSoundOptions, Slider,
};
use super::widgets::{
    buttons_view, first_pressed, halved, pressed_from, ButtonModel, GuiAction, GuiKey, Screen,
    ScreenKind, Toggle, UiRect,
};

verus! {

// ── Rectangles and buttons ────────────────────────────────────────────────

/// A rectangle holds its upper left corner and as many pixels as it is wide and high; the
/// first pixel past either side is outside.
pub proof fn law_rectangles_hold_their_pixels(r: UiRect, dx: int, dy: int)
    ensures
        r.spec_contains(r.x + dx, r.y + dy) <==> 0 <= dx < r.width && 0 <= dy < r.height,
{
}

/// Halving rounds towards nought, and is the same below as above it.
pub proof fn law_halves_are_cut_off(n: int)
    ensures
        halved(-n) == -halved(n),
        n >= 0 ==> halved(n) * 2 <= n < halved(n) * 2 + 2,
{
}

/// A click presses an enabled button that it is in, and none where it is in none.
pub proof fn law_clicks_press_what_they_are_in(buttons: Seq<ButtonModel>, x: int, y: int, j: int)
    ensures
        first_pressed(buttons, x, y) matches Some(i) ==> 0 <= i < buttons.len()
            && buttons[i].enabled && buttons[i].rect.spec_contains(x, y) && (0 <= j < i
            ==> !buttons[j].pressed(x, y)),
        first_pressed(buttons, x, y) is None ==> (0 <= j < buttons.len() ==> !(buttons[j].enabled
            && buttons[j].rect.spec_contains(x, y))),
{
    lemma_pressed(buttons, x, y, 0, j);
}

proof fn lemma_pressed(buttons: Seq<ButtonModel>, x: int, y: int, from: int, j: int)
    requires
        0 <= from,
    ensures
        pressed_from(buttons, x, y, from) matches Some(i) ==> from <= i < buttons.len()
            && buttons[i].pressed(x, y) && (from <= j < i ==> !buttons[j].pressed(x, y)),
        pressed_from(buttons, x, y, from) is None ==> (from <= j < buttons.len()
            ==> !buttons[j].pressed(x, y)),
    decreases buttons.len() - from,
{
    if from < buttons.len() {
        lemma_pressed(buttons, x, y, from + 1, j);
    }
}

/// The buttons of the menus lead where they say.
pub proof fn law_menu_buttons_do_what_they_say(screen: Screen, lang: Language)
    ensures
        ({
            let main = main_menu_buttons(screen, lang);
            &&& main.len() == 5
            &&& main[0].label == lang.text_for("menu.singleplayer"@) && main_menu_action(0)
                == GuiAction::SetScreen(ScreenKind::SelectWorld)
            &&& main[1].label == lang.text_for("menu.multiplayer"@) && main_menu_action(1)
                == GuiAction::SetScreen(ScreenKind::Multiplayer)
            &&& main[2].label == lang.text_for("fpsmaster.menu.mods"@) && main_menu_action(2)
                == GuiAction::SetScreen(ScreenKind::ModList { from_main_menu: true })
            &&& main[3].label == lang.text_for("menu.options"@) && main_menu_action(3)
                == GuiAction::SetScreen(ScreenKind::Options { from_main_menu: true })
            &&& main[4].label == lang.text_for("menu.quit"@) && main_menu_action(4)
                == GuiAction::Quit
        }),
        ({
            let pause = ingame_menu_buttons(screen, lang);
            &&& pause.len() == 4
            &&& pause[0].label == lang.text_for("menu.returnToGame"@) && ingame_menu_action(0)
                == GuiAction::CloseScreen
            &&& pause[1].label == lang.text_for("menu.options"@) && ingame_menu_action(1)
                == GuiAction::SetScreen(ScreenKind::Options { from_main_menu: false })
            &&& pause[2].label == lang.text_for("fpsmaster.menu.mods"@) && ingame_menu_action(2)
                == GuiAction::SetScreen(ScreenKind::ModList { from_main_menu: false })
            &&& pause[3].label == lang.text_for("menu.disconnect"@) && ingame_menu_action(3)
                == GuiAction::QuitToTitle
        }),
        ({
            let demo = demo_buttons(screen, lang);
            &&& demo.len() == 4
            &&& demo[0].label == lang.text_for("fpsmaster.demo.landscape"@) && demo_action(0)
                == GuiAction::StartDemo(DemoKind::Landscape)
            &&& demo[1].label == lang.text_for("fpsmaster.demo.chunkStress"@) && demo_action(1)
                == GuiAction::StartDemo(DemoKind::ChunkStress)
            &&& demo[2].label == lang.text_for("fpsmaster.demo.entityStress"@) && demo_action(2)
                == GuiAction::StartDemo(DemoKind::EntityStress)
            &&& demo[3].label == lang.text_for("gui.back"@) && demo_action(3)
                == GuiAction::SetScreen(ScreenKind::MainMenu)
        }),
{
}

/// The line beside the logo is one of the file's, each in its turn, and stays on the screen
/// where it fits.
pub proof fn law_a_line_is_picked_in_turn(text: Seq<char>, seed: int, screen: Screen, width: int)
    requires
        seed >= 0,
        screen.wf(),
        width >= 0,
    ensures
        lines_of(text).len() == 0 <==> picked(text, seed) is None,
        picked(text, seed) matches Some(line) ==> lines_of(text).contains(line),
        lines_of(text).len() > 0 ==> picked(text, seed + lines_of(text).len()) == picked(text, seed),
        seed < lines_of(text).len() ==> picked(text, seed) == Some(lines_of(text)[seed]),
        splash_start(screen, width) >= 2 * screen.scale,
        width + 4 * screen.scale <= screen.width ==> splash_start(screen, width) + width + 2
            * screen.scale <= screen.width,
{
    let n = lines_of(text).len() as int;
    if n > 0 {
        vstd::arithmetic::div_mod::lemma_mod_add_multiples_vanish(seed, n);
        assert((seed + n) % n == seed % n) by {
            vstd::arithmetic::div_mod::lemma_mod_add_multiples_vanish(seed, n);
        }
        vstd::arithmetic::div_mod::lemma_mod_bound(seed, n);
        if seed < n {
            vstd::arithmetic::div_mod::lemma_small_mod(seed as nat, n as nat);
        }
    }
}

// ── Chat ──────────────────────────────────────────────────────────────────

/// Trimmed text has no white space at either end, and is all of what stood between.
pub proof fn law_trimmed_text_has_bare_ends(text: Seq<char>)
    ensures
        trimmed(text).len() > 0 ==> !whitespace(trimmed(text)[0]) && !whitespace(
            trimmed(text).last(),
        ),
        text.len() > 0 && !whitespace(text[0]) && !whitespace(text.last()) ==> trimmed(text) == text,
        trimmed(text).len() <= text.len(),
{
    lemma_trimmed_start(text);
    lemma_trimmed_end(trimmed_start(text));
}

proof fn lemma_trimmed_start(text: Seq<char>)
    ensures
        trimmed_start(text).len() > 0 ==> !whitespace(trimmed_start(text)[0]),
        trimmed_start(text).len() <= text.len(),
    decreases text.len(),
{
    if text.len() > 0 && whitespace(text[0]) {
        lemma_trimmed_start(text.skip(1));
    }
}

proof fn lemma_trimmed_end(text: Seq<char>)
    ensures
        trimmed_end(text).len() > 0 ==> !whitespace(trimmed_end(text).last()) && trimmed_end(
            text,
        )[0] == text[0],
        trimmed_end(text).len() <= text.len(),
    decreases text.len(),
{
    if text.len() > 0 && whitespace(text.last()) {
        lemma_trimmed_end(text.drop_last());
    }
}

/// Enter sends the line without white space around it and closes the box; an empty line only
/// closes it, and escape sends nothing.
pub proof fn law_enter_sends_the_line(
    before: GuiChat,
    chat: ChatState,
    after: GuiChat,
    chat_after: ChatState,
    actions: Seq<GuiAction>,
    edits: bool,
)
    ensures
        chat_key(before, chat, GuiKey::Enter, after, chat_after, actions, edits) ==> {
            &&& trimmed(before.input@).len() > 0 ==> actions.len() == 2 && (actions[0]
                matches GuiAction::SendChat(message) && message@ == trimmed(before.input@))
            &&& trimmed(before.input@).len() == 0 ==> actions.len() == 1
            &&& actions.last() == GuiAction::CloseScreen
            &&& !edits
        },
        chat_key(before, chat, GuiKey::Escape, after, chat_after, actions, edits) ==> actions.len()
            == 1 && actions[0] == GuiAction::CloseScreen && after == before && chat_after == chat,
{
}

/// Tab asks the server where there are no candidates, and else puts the next one, in their
/// circle, in place of the last word.
pub proof fn law_tab_completes_the_last_word(
    before: GuiChat,
    chat: ChatState,
    after: GuiChat,
    chat_after: ChatState,
    actions: Seq<GuiAction>,
    edits: bool,
)
    requires
        chat_key(before, chat, GuiKey::Tab, after, chat_after, actions, edits),
        chat.completion_cursor < chat.completions@.len() < usize::MAX || chat.completions@.len()
            == 0,
    ensures
        chat.completions@.len() == 0 ==> actions.len() == 1 && (actions[0]
            matches GuiAction::SendPacket(ServerboundPacket::TabComplete { text, has_position })
            && text@ == before.input@ && !has_position) && after == before,
        chat.completions@.len() > 0 ==> {
            let start = token_start(before.input@);
            &&& actions.len() == 0
            &&& after.input@.take(start) == before.input@.take(start)
            &&& after.input@.skip(start) == chat.completions@[chat.completion_cursor as int]@
            &&& chat_after.completion_cursor == chat.completion_cursor + 1
            &&& chat_after.completions == chat.completions
        },
        chat_after.sent == chat.sent,
        chat_after.lines == chat.lines,
{
    let input = before.input@;
    crate::chat::line_laws::law_completion_replaces_the_last_word(input, 0);
    if chat.completions@.len() > 0 {
        let start = token_start(input);
        let at = chat.completion_cursor as int;
        vstd::arithmetic::div_mod::lemma_small_mod(at as nat, chat.completions@.len());
        let candidate = chat.completions@[at]@;
        assert(after.input@ == input.take(start) + candidate);
        assert(after.input@.take(start) =~= input.take(start));
        assert(after.input@.skip(start) =~= candidate);
    }
}

/// Up recalls the message before, down the one after, and neither goes past an end.
pub proof fn law_arrows_recall_messages(
    before: GuiChat,
    chat: ChatState,
    after: GuiChat,
    chat_after: ChatState,
    actions: Seq<GuiAction>,
    edits: bool,
)
    requires
        chat.wf(),
    ensures
        chat_key(before, chat, GuiKey::Up, after, chat_after, actions, edits) ==> {
            &&& chat.sent_cursor > 0 ==> after.input@ == chat.sent@[chat.sent_cursor - 1]@
                && chat_after.sent_cursor == chat.sent_cursor - 1
            &&& chat.sent_cursor == 0 ==> after.input == before.input && chat_after == chat
            &&& actions.len() == 0 && chat_after.sent == chat.sent
        },
        chat_key(before, chat, GuiKey::Down, after, chat_after, actions, edits) ==> {
            &&& chat.sent_cursor + 1 < chat.sent@.len() ==> after.input@
                == chat.sent@[chat.sent_cursor + 1]@
            &&& chat.sent_cursor + 1 == chat.sent@.len() ==> after.input@.len() == 0
            &&& chat.sent_cursor < chat.sent@.len() ==> chat_after.sent_cursor == chat.sent_cursor
                + 1
            &&& chat.sent_cursor == chat.sent@.len() ==> after.input == before.input
            &&& actions.len() == 0 && chat_after.sent == chat.sent
        },
{
    assert(chat.sent.len() == chat.sent@.len());
}

proof fn lemma_region(regions: Seq<(UiRect, crate::chat::component::ClickEvent)>, x: int, y: int, i: int, j: int)
    requires
        0 <= i,
    ensures
        region_from(regions, x, y, i) matches Some(k) ==> i <= k < regions.len()
            && regions[k].0.spec_contains(x, y),
        region_from(regions, x, y, i) is None ==> (i <= j < regions.len()
            ==> !regions[j].0.spec_contains(x, y)),
    decreases regions.len() - i,
{
    if i < regions.len() {
        lemma_region(regions, x, y, i + 1, j);
    }
}

/// A click on a clickable part does what its event says, with its value: runs it as a
/// message, puts it in the box, opens or copies it; beside such parts nothing happens.
pub proof fn law_clicked_parts_act(
    before: GuiChat,
    x: int,
    y: int,
    after: GuiChat,
    actions: Seq<GuiAction>,
    j: int,
)
    requires
        chat_clicked(before, x, y, after, actions),
        0 <= j < before.click_regions@.len(),
        before.click_regions@[j].0.spec_contains(x, y),
        forall|k: int|
            0 <= k < before.click_regions@.len() && k != j ==> !(#[trigger] before.click_regions@[k]).0.spec_contains(x, y),
    ensures
        ({
            let event = before.click_regions@[j].1;
            &&& event.action == ClickAction::RunCommand ==> actions.len() == 1 && actions[0]
                == GuiAction::SendChat(event.value) && after.input == before.input
            &&& event.action == ClickAction::SuggestCommand ==> actions.len() == 0 && after.input
                == event.value
            &&& event.action == ClickAction::OpenUrl ==> actions.len() == 1 && actions[0]
                == GuiAction::OpenUrl(event.value) && after.input == before.input
            &&& event.action == ClickAction::CopyToClipboard ==> actions.len() == 1 && actions[0]
                == GuiAction::CopyToClipboard(event.value) && after.input == before.input
        }),
{
    lemma_region(before.click_regions@, x, y, 0, j);
}

/// A click beside every clickable part does nothing.
pub proof fn law_clicks_beside_parts_do_nothing(
    before: GuiChat,
    x: int,
    y: int,
    after: GuiChat,
    actions: Seq<GuiAction>,
)
    requires
        chat_clicked(before, x, y, after, actions),
        forall|k: int|
            0 <= k < before.click_regions@.len() ==> !(#[trigger] before.click_regions@[k]).0.spec_contains(x, y),
    ensures
        actions.len() == 0,
        after == before,
{
    lemma_region(before.click_regions@, x, y, 0, 0);
}

// ── Servers ───────────────────────────────────────────────────────────────

/// Arrow keys step through the list and stop at its ends; without a selection they start
/// from the nearer one.
pub proof fn law_steps_stay_in_the_list(count: int, i: usize)
    requires
        0 <= i < count,
    ensures
        i + 1 < count ==> stepped(count, Some(i), 1) == i + 1,
        i + 1 == count ==> stepped(count, Some(i), 1) == i,
        i > 0 ==> stepped(count, Some(i), -1) == i - 1,
        i == 0 ==> stepped(count, Some(i), -1) == 0,
        stepped(count, None, 1) == 0,
        stepped(count, None, -1) == count - 1,
{
}

/// The list scrolls no farther than it must to show a row, and never past its ends.
pub proof fn law_lists_scroll_as_little_as_needed(scroll: int, visible: int, row: int, total: int)
    requires
        visible > 0,
        total >= 0,
    ensures
        scroll <= row < scroll + visible ==> scrolled_to(scroll, visible, row) == scroll,
        row < scroll ==> scrolled_to(scroll, visible, row) == row,
        row >= scroll + visible ==> scrolled_to(scroll, visible, row) + visible == row + 1,
        0 <= kept_scroll(scroll, total, visible),
        total > visible ==> kept_scroll(scroll, total, visible) + visible <= total,
        total <= visible ==> kept_scroll(scroll, total, visible) == 0,
        0 <= scroll && scroll + visible <= total ==> kept_scroll(scroll, total, visible) == scroll,
{
}

/// The wheel moves a list by its steps, up for a positive one, and not above its start.
pub proof fn law_the_wheel_scrolls(scroll: int, step: int)
    ensures
        scroll >= step ==> wheeled(scroll, step) == scroll - step,
        scroll < step ==> wheeled(scroll, step) == 0,
{
}

/// The rows shown are those from the scroll on, in order, each at its place.
pub proof fn law_rows_are_shown_in_order(
    rows: Seq<(usize, UiRect)>,
    places: Seq<UiRect>,
    scroll: int,
    total: int,
    i: int,
)
    requires
        are_rows(rows, places, scroll, total),
        0 <= i < rows.len(),
        0 <= scroll,
        total <= usize::MAX,
    ensures
        rows[i].0 == scroll + i,
        rows[i].0 < total,
        rows[i].1 == places[i],
        rows.len() <= places.len(),
{
}

/// A moved server changes places with its neighbour, takes its answer along and stays
/// selected; no server is lost, and at an end nothing moves.
pub proof fn law_moved_servers_change_places(
    before: GuiMultiplayer,
    delta: int,
    after: GuiMultiplayer,
    store: bool,
    k: int,
)
    requires
        server_moved(before, delta, after, store),
        before.selected matches Some(i) && i < before.servers@.len(),
        before.pings@.len() == before.servers@.len(),
        delta == 1 || delta == -1,
        0 <= k < before.servers@.len(),
    ensures
        ({
            let from = before.selected->0 as int;
            let to = from + delta;
            &&& store <==> 0 <= to < before.servers@.len()
            &&& !store ==> after == before
            &&& store ==> {
                &&& after.servers@.len() == before.servers@.len()
                &&& after.servers@[to] == before.servers@[from]
                &&& after.servers@[from] == before.servers@[to]
                &&& k != from && k != to ==> after.servers@[k] == before.servers@[k]
                &&& after.pings@[to] == before.pings@[from]
                &&& after.pings@[from] == before.pings@[to]
                &&& after.selected == Some(to as usize)
            }
        }),
{
}

/// A removed server is the one that was asked about; the others stay in order, and have to be
/// asked again.
pub proof fn law_the_asked_about_server_is_removed(
    before: GuiMultiplayer,
    after: GuiMultiplayer,
    store: bool,
    k: int,
)
    requires
        server_removed(before, after, store),
        before.confirm_delete is Some,
        0 <= k,
    ensures
        ({
            let at = before.confirm_delete->0 as int;
            &&& store <==> at < before.servers@.len()
            &&& after.confirm_delete is None
            &&& store ==> after.servers@.len() == before.servers@.len() - 1 && after.selected is None
            &&& store && k < at ==> after.servers@[k] == before.servers@[k]
            &&& store && at <= k < after.servers@.len() ==> after.servers@[k] == before.servers@[k
                + 1]
            &&& store && k < after.pings@.len() ==> after.pings@[k] is None
            &&& !store ==> after.servers == before.servers
        }),
{
}

/// A server's answer is kept at its row, and at no other.
pub proof fn law_answers_are_kept_by_row(
    pings: Seq<Option<PingOutcome>>,
    index: usize,
    outcome: PingOutcome,
    k: int,
)
    requires
        0 <= k < pings.len(),
    ensures
        answered(pings, index, outcome).len() == pings.len(),
        k == index ==> answered(pings, index, outcome)[k] == Some(outcome),
        k != index ==> answered(pings, index, outcome)[k] == pings[k],
{
}

/// Bars fall at a hundred and fifty, three hundred, six hundred and a thousand milliseconds;
/// a server out of reach has the last level, and one that has not answered moves.
pub proof fn law_bars_show_the_latency(info: PingInfo, error: String, row: i32)
    requires
        0 <= row < 1000,
    ensures
        info.latency_ms < 150 <==> bar_cell(Some(PingOutcome::Answered(info)), row) == (0int, 0int),
        150 <= info.latency_ms < 300 <==> bar_cell(Some(PingOutcome::Answered(info)), row) == (
            0int,
            1int,
        ),
        300 <= info.latency_ms < 600 <==> bar_cell(Some(PingOutcome::Answered(info)), row) == (
            0int,
            2int,
        ),
        600 <= info.latency_ms < 1000 <==> bar_cell(Some(PingOutcome::Answered(info)), row) == (
            0int,
            3int,
        ),
        bar_cell(Some(PingOutcome::Failed(error)), row) == (0int, 5int),
        bar_cell(None, row).0 == 1,
        0 <= bar_cell(None, row).1 <= 4,
{
}

/// A server shows its message in gray, why it could not be reached in red; hovering tells the
/// milliseconds.
pub proof fn law_servers_tell_their_state(info: PingInfo, error: String, lang: Language)
    ensures
        status_text(Some(PingOutcome::Answered(info)), lang) == "\u{a7}7"@ + info.motd@,
        status_text(Some(PingOutcome::Failed(error)), lang) == "\u{a7}4"@ + error@,
        connection_text(Some(PingOutcome::Answered(info))) == decimal(info.latency_ms as int)
            + "ms"@,
        connection_text(Some(PingOutcome::Failed(error))) == "(no connection)"@,
{
}

proof fn lemma_row(rows: Seq<(usize, UiRect)>, x: int, y: int, i: int, j: int)
    requires
        0 <= i <= j < rows.len(),
        rows[j].1.spec_contains(x, y),
        forall|k: int| 0 <= k < rows.len() && k != j ==> !(#[trigger] rows[k]).1.spec_contains(x, y),
    ensures
        row_from(rows, x, y, i) == Some(rows[j].0),
        action_from(rows, x, y, i) == Some(rows[j].0),
    decreases j - i,
{
    if i < j {
        lemma_row(rows, x, y, i + 1, j);
    }
}

proof fn lemma_no_rows(rows: Seq<(usize, UiRect)>, x: int, y: int, i: int)
    requires
        0 <= i,
        forall|k: int| 0 <= k < rows.len() ==> !(#[trigger] rows[k]).1.spec_contains(x, y),
    ensures
        row_from(rows, x, y, i) is None,
        action_from(rows, x, y, i) is None,
    decreases rows.len() - i,
{
    if i < rows.len() {
        lemma_no_rows(rows, x, y, i + 1);
    }
}

/// A click on a row selects its server; a second one within three hundred and fifty
/// milliseconds joins it, at its address.
pub proof fn law_two_clicks_join(
    before: GuiMultiplayer,
    x: int,
    y: int,
    now: u64,
    after: GuiMultiplayer,
    actions: Seq<GuiAction>,
    store: bool,
    ask: bool,
    j: int,
)
    requires
        list_clicked(before, x, y, now, after, actions, store, ask),
        before.confirm_delete is None,
        0 <= j < before.row_rects@.len(),
        before.row_rects@[j].1.spec_contains(x, y),
        before.row_rects@[j].0 < before.servers@.len(),
        forall|k: int|
            0 <= k < before.row_rects@.len() && k != j ==> !(#[trigger] before.row_rects@[k]).1.spec_contains(x, y),
    ensures
        ({
            let row = before.row_rects@[j].0;
            let again = before.last_click matches Some((r, at)) && r == row && now - at < 350;
            &&& after.selected == Some(row)
            &&& after.servers == before.servers
            &&& again ==> actions.len() == 1 && actions[0] == GuiAction::Join(
                before.servers@[row as int].address,
            )
            &&& !again ==> actions.len() == 0
            &&& !store && !ask
        }),
{
    lemma_row(before.row_rects@, x, y, 0, j);
}

/// The buttons under the list do what they say: join, connect directly, add, edit, ask before
/// removing, ask the servers again, and leave; what needs a selection does nothing without.
pub proof fn law_list_buttons_do_what_they_say(
    screen: Screen,
    lang: Language,
    before: GuiMultiplayer,
    x: int,
    y: int,
    now: u64,
    after: GuiMultiplayer,
    actions: Seq<GuiAction>,
    store: bool,
    ask: bool,
)
    requires
        list_clicked(before, x, y, now, after, actions, store, ask),
        before.confirm_delete is None,
        before.has_selection(),
        buttons_view(before.buttons@) == list_buttons(screen, lang, false, true),
        forall|k: int|
            0 <= k < before.row_rects@.len() ==> !(#[trigger] before.row_rects@[k]).1.spec_contains(x, y),
    ensures
        ({
            let labels = list_buttons(screen, lang, false, true);
            let pressed = first_pressed(buttons_view(before.buttons@), x, y);
            let at = before.selected->0;
            &&& labels[0].label == lang.text_for("selectServer.select"@)
            &&& pressed == Some(0int) ==> actions == seq![
                GuiAction::Join(before.servers@[at as int].address),
            ]
            &&& labels[1].label == lang.text_for("selectServer.direct"@)
            &&& pressed == Some(1int) ==> actions == seq![
                GuiAction::SetScreen(ScreenKind::DirectConnect),
            ]
            &&& pressed == Some(2int) ==> actions == seq![
                GuiAction::SetScreen(ScreenKind::AddServer),
            ]
            &&& labels[3].label == lang.text_for("selectServer.edit"@)
            &&& pressed == Some(3int) ==> actions == seq![
                GuiAction::SetScreen(ScreenKind::EditServer(at)),
            ]
            &&& labels[4].label == lang.text_for("selectServer.delete"@)
            &&& pressed == Some(4int) ==> after.confirm_delete == Some(at) && after.servers
                == before.servers && actions.len() == 0
            &&& labels[5].label == lang.text_for("selectServer.refresh"@)
            &&& pressed == Some(5int) ==> ask && actions.len() == 0
            &&& labels[6].label == lang.text_for("gui.cancel"@)
            &&& pressed == Some(6int) ==> actions == seq![
                GuiAction::SetScreen(ScreenKind::MainMenu),
            ]
            &&& pressed is None ==> actions.len() == 0 && after == before
            &&& !store
        }),
{
    lemma_no_rows(before.row_rects@, x, y, 0);
    assert(before.buttons@.len() == buttons_view(before.buttons@).len());
}

/// Nothing is removed unless it was asked about and confirmed; while it is asked about, the
/// list stays as it is.
pub proof fn law_removals_are_confirmed(
    before: GuiMultiplayer,
    x: int,
    y: int,
    now: u64,
    key: GuiKey,
    shift: bool,
    after: GuiMultiplayer,
    actions: Seq<GuiAction>,
    store: bool,
    ask: bool,
)
    ensures
        list_clicked(before, x, y, now, after, actions, store, ask) && before.confirm_delete is None
            ==> after.servers == before.servers,
        list_clicked(before, x, y, now, after, actions, store, ask) && before.confirm_delete is Some
            && first_pressed(buttons_view(before.buttons@), x, y) != Some(0int) ==> after.servers
            == before.servers && actions.len() == 0,
        list_key(before, key, shift, after, actions, store, ask) && before.confirm_delete is Some
            && key != GuiKey::Enter ==> after.servers == before.servers && actions.len() == 0,
        list_key(before, key, shift, after, actions, store, ask) && before.confirm_delete is Some
            && key == GuiKey::Escape ==> after.confirm_delete is None,
        list_key(before, key, shift, after, actions, store, ask) && before.confirm_delete is None
            && !shift ==> after.servers == before.servers,
{
}

/// Keys in the list: enter joins the selection, escape leaves, the refresh key asks again,
/// and the arrows move the selection, with shift the server.
pub proof fn law_list_keys(
    before: GuiMultiplayer,
    key: GuiKey,
    after: GuiMultiplayer,
    actions: Seq<GuiAction>,
    store: bool,
    ask: bool,
)
    requires
        list_key(before, key, false, after, actions, store, ask),
        before.confirm_delete is None,
        before.has_selection(),
    ensures
        ({
            let i = before.selected->0 as int;
            let n = before.servers@.len() as int;
            &&& key == GuiKey::Enter ==> actions == seq![
                GuiAction::Join(before.servers@[i].address),
            ]
            &&& key == GuiKey::Escape ==> actions == seq![
                GuiAction::SetScreen(ScreenKind::MainMenu),
            ]
            &&& key != GuiKey::Enter && key != GuiKey::Escape ==> actions.len() == 0
            &&& key == GuiKey::Refresh <==> ask
            &&& key == GuiKey::Down && i + 1 < n ==> after.selected == Some((i + 1) as usize)
            &&& key == GuiKey::Up && i > 0 ==> after.selected == Some((i - 1) as usize)
            &&& key != GuiKey::Up && key != GuiKey::Down ==> after.selected == before.selected
            &&& !store
        }),
{
}

/// What was entered replaces the server that is edited, or comes last; the others stay.
pub proof fn law_entries_are_kept_in_place(
    entries: Seq<EntryModel>,
    editing: Option<usize>,
    entry: EntryModel,
    k: int,
)
    requires
        0 <= k < entries.len(),
    ensures
        editing matches Some(i) ==> (i < entries.len() ==> with_entry(entries, editing, entry).len()
            == entries.len() && with_entry(entries, editing, entry)[i as int] == entry && (k != i
            ==> with_entry(entries, editing, entry)[k] == entries[k])),
        editing is None ==> with_entry(entries, editing, entry).len() == entries.len() + 1
            && with_entry(entries, editing, entry).last() == entry && with_entry(
            entries,
            editing,
            entry,
        )[k] == entries[k],
{
}

/// A server without a name is named by its address.
pub proof fn law_nameless_servers_are_named_by_address(name: Seq<char>, address: Seq<char>)
    ensures
        entry_of(name, address).address == trimmed(address),
        trimmed(name).len() > 0 ==> entry_of(name, address).name == trimmed(name),
        trimmed(name).len() == 0 ==> entry_of(name, address).name == trimmed(address),
{
}

/// Enter keeps what was entered and shows the list, if there is an address; escape keeps
/// nothing; tab moves to the other field.
pub proof fn law_edit_keys(
    before: GuiEditServer,
    key: GuiKey,
    entries: Seq<ServerEntry>,
    after: GuiEditServer,
    entries_after: Seq<ServerEntry>,
    actions: Seq<GuiAction>,
    edits: bool,
)
    requires
        edit_key(before, key, entries, after, entries_after, actions, edits),
    ensures
        key == GuiKey::Enter && trimmed(before.address.text@).len() > 0 ==> actions == seq![
            GuiAction::SetScreen(ScreenKind::Multiplayer),
        ] && (before.editing is None ==> entries_after.len() == entries.len() + 1 && entries_view(
            entries_after,
        ).last() == entry_of(before.name.text@, before.address.text@)),
        key == GuiKey::Enter && trimmed(before.address.text@).len() == 0 ==> actions.len() == 0
            && entries_after == entries,
        key == GuiKey::Escape ==> actions == seq![GuiAction::SetScreen(ScreenKind::Multiplayer)]
            && entries_after == entries,
        key == GuiKey::Tab ==> after.address.focused != before.address.focused && after.name.focused
            == !after.address.focused && entries_after == entries && actions.len() == 0,
        key == GuiKey::Other ==> edits && entries_after == entries && actions.len() == 0,
        after.name.text == before.name.text,
        after.address.text == before.address.text,
{
    if key == GuiKey::Enter && trimmed(before.address.text@).len() > 0 && before.editing is None {
        assert(entries_view(entries_after).len() == entries_view(entries).len() + 1);
    }
}

/// A click gives the focus to the field it is in and takes it from the other; only the first
/// button keeps what was entered.
pub proof fn law_edit_clicks(
    before: GuiEditServer,
    x: int,
    y: int,
    entries: Seq<ServerEntry>,
    after: GuiEditServer,
    entries_after: Seq<ServerEntry>,
    actions: Seq<GuiAction>,
)
    requires
        edit_clicked(before, x, y, entries, after, entries_after, actions),
        before.buttons@.len() == 2,
    ensures
        ({
            let pressed = first_pressed(buttons_view(before.buttons@), x, y);
            &&& after.name.focused <==> before.name.rect.spec_contains(x, y)
            &&& after.address.focused <==> before.address.rect.spec_contains(x, y)
            &&& pressed != Some(0int) ==> entries_after == entries
            &&& pressed == Some(0int) && trimmed(before.address.text@).len() > 0 ==> entries_view(
                entries_after,
            ) == with_entry(
                entries_view(entries),
                before.editing,
                entry_of(before.name.text@, before.address.text@),
            ) && actions.len() == 1
            &&& pressed == Some(1int) ==> actions.len() == 1
            &&& pressed is None ==> actions.len() == 0
        }),
{
}

/// The direct connection joins the address entered, by enter or the first button; escape and
/// the second lead back.
pub proof fn law_direct_connections_join_the_address(
    before: GuiDirectConnect,
    x: int,
    y: int,
    after: GuiDirectConnect,
    actions: Seq<GuiAction>,
    edits: bool,
)
    requires
        before.buttons@.len() == 2,
    ensures
        direct_key(before, GuiKey::Enter, actions, edits) ==> actions == seq![
            GuiAction::Join(before.address.text),
        ],
        direct_key(before, GuiKey::Escape, actions, edits) ==> actions == seq![
            GuiAction::SetScreen(ScreenKind::Multiplayer),
        ],
        direct_key(before, GuiKey::Other, actions, edits) ==> actions.len() == 0 && edits,
        direct_clicked(before, x, y, after, actions) ==> {
            let pressed = first_pressed(buttons_view(before.buttons@), x, y);
            &&& pressed == Some(0int) ==> actions == seq![GuiAction::Join(before.address.text)]
            &&& pressed == Some(1int) ==> actions == seq![
                GuiAction::SetScreen(ScreenKind::Multiplayer),
            ]
            &&& pressed is None ==> actions.len() == 0
            &&& after.address.text == before.address.text
        },
{
}

/// Fields and buttons of the form stand below one another.
pub proof fn law_fields_stand_below_one_another(screen: Screen)
    requires
        screen.wf(),
    ensures
        field_rect(screen, 12).apart(field_rect(screen, 48)),
        field_rect(screen, 12).x == field_rect(screen, 48).x,
        field_rect(screen, 48).y == field_rect(screen, 12).y + 36 * screen.scale,
{
    assert(12 * screen.scale <= 48 * screen.scale);
}

// ── Settings ──────────────────────────────────────────────────────────────

/// Leaving settings saves them first, and leads back to the options that led there.
pub proof fn law_settings_are_saved_on_leaving(from_main_menu: bool)
    ensures
        leaves_settings(from_main_menu).len() == 2,
        leaves_settings(from_main_menu)[0] == GuiAction::SaveSettings,
        leaves_settings(from_main_menu)[1] == GuiAction::SetScreen(
            ScreenKind::Options { from_main_menu },
        ),
{
}

/// A clicked key button waits for the key of its action, and the next key is bound to that
/// action and saved; escape binds nothing, and leaves only when nothing is waited for.
pub proof fn law_the_next_key_is_bound(
    before: GuiControls,
    x: int,
    y: int,
    waiting: GuiControls,
    first: Seq<GuiAction>,
    escape: bool,
    after: GuiControls,
    bound: Option<usize>,
    second: Seq<GuiAction>,
    j: int,
)
    requires
        controls_clicked(before, x, y, waiting, first),
        controls_key(waiting, escape, after, bound, second),
        before.binding is None,
        before.done is None,
        0 <= j < before.row_buttons@.len(),
        before.row_buttons@[j].1.spec_contains(x, y),
        forall|k: int|
            0 <= k < before.row_buttons@.len() && k != j ==> !(#[trigger] before.row_buttons@[k]).1.spec_contains(x, y),
    ensures
        waiting.binding == Some(before.row_buttons@[j].0),
        first.len() == 0,
        !escape ==> bound == Some(before.row_buttons@[j].0) && second == seq![
            GuiAction::SaveSettings,
        ],
        escape ==> bound is None && second.len() == 0,
        after.binding is None,
{
    lemma_row(before.row_buttons@, x, y, 0, j);
}

/// While a key is waited for, a click only stops waiting; else the button below leaves.
pub proof fn law_clicks_stop_waiting(
    before: GuiControls,
    x: int,
    y: int,
    after: GuiControls,
    actions: Seq<GuiAction>,
)
    requires
        controls_clicked(before, x, y, after, actions),
    ensures
        before.binding is Some ==> after.binding is None && actions.len() == 0,
        before.binding is None ==> (before.done matches Some(b) ==> (b@.pressed(x, y) ==> actions
            == leaves_settings(before.from_main_menu) && after.binding is None)),
        after.scroll == before.scroll,
{
}

/// A row shows its action's key: a question while it is waited for, in brackets where
/// another action has it too.
pub proof fn law_rows_show_their_key(b: Binding)
    ensures
        key_label(true, b) == "> ? <"@,
        !b.conflict ==> key_label(false, b) == b.key_name@,
        b.conflict ==> key_label(false, b) == "["@ + b.key_name@ + "]"@,
{
}

/// A list scrolls so far that its last row is at the bottom, and a short one not at all.
pub proof fn law_lists_end_at_the_bottom(total: int, visible: int)
    requires
        0 <= visible,
        0 <= total,
    ensures
        total > visible ==> furthest(total, visible) + visible == total,
        total <= visible ==> furthest(total, visible) == 0,
{
}

proof fn lemma_slider(rects: Seq<UiRect>, x: int, y: int, i: int, j: int)
    requires
        0 <= i <= j < rects.len(),
        rects[j].spec_contains(x, y),
        forall|k: int| 0 <= k < rects.len() && k != j ==> !(#[trigger] rects[k]).spec_contains(x, y),
    ensures
        slider_from(rects, x, y, i) == Some(slider_at_place(j)),
    decreases j - i,
{
    if i < j {
        lemma_slider(rects, x, y, i + 1, j);
    }
}

/// A click takes hold of the slider it is on, and letting go of it saves the settings once.
pub proof fn law_sliders_are_held_and_saved(
    before: GuiSoundOptions,
    x: int,
    y: int,
    held: GuiSoundOptions,
    first: Seq<GuiAction>,
    after: GuiSoundOptions,
    second: Seq<GuiAction>,
    slider: Slider,
)
    requires
        sounds_clicked(before, x, y, held, first),
        sounds_released(held, after, second),
        before.rects@.len() == 9,
        before.rects@[slider.place()].spec_contains(x, y),
        forall|k: int|
            0 <= k < 9 && k != slider.place() ==> !(#[trigger] before.rects@[k]).spec_contains(x, y),
    ensures
        held.dragging == Some(slider),
        first.len() == 0,
        after.dragging is None,
        second == seq![GuiAction::SaveSettings],
{
    lemma_slider(before.rects@, x, y, 0, slider.place());
}

/// Letting go of nothing saves nothing.
pub proof fn law_nothing_held_saves_nothing(
    before: GuiSoundOptions,
    after: GuiSoundOptions,
    actions: Seq<GuiAction>,
)
    requires
        sounds_released(before, after, actions),
        before.dragging is None,
    ensures
        actions.len() == 0,
        after == before,
{
}

/// A volume is labelled with its name and its percentage, or as off.
pub proof fn law_volumes_are_labelled(slider: Slider, n: i32, lang: Language)
    ensures
        label_text(slider, Some(n), lang) == lang.text_for(slider.key()@) + ": "@ + (decimal(
            n as int,
        ) + "%"@),
        label_text(slider, None, lang) == lang.text_for(slider.key()@) + ": "@ + lang.text_for(
            "options.off"@,
        ),
        Slider::Master.key()@ == "soundCategory.master"@,
        Slider::Music.key()@ == "soundCategory.music"@,
        Slider::Weather.key()@ == "soundCategory.weather"@,
        Slider::Hostile.key()@ == "soundCategory.hostile"@,
        Slider::Ambient.key()@ == "soundCategory.ambient"@,
{
}

/// The sliders stand in two columns below the one for all, in rows of two.
pub proof fn law_sliders_stand_in_two_columns(screen: Screen, i: int)
    requires
        screen.wf(),
        1 <= i < 8,
    ensures
        i % 2 == 1 ==> slider_rect(screen, i).x == slider_rect(screen, 0).x && slider_rect(
            screen,
            i + 1,
        ).y == slider_rect(screen, i).y,
        slider_rect(screen, 1).y == slider_rect(screen, 0).y + 24 * screen.scale,
        slider_rect(screen, 0).width == 310 * screen.scale,
        slider_rect(screen, i).width == 150 * screen.scale,
{
    let s = screen.scale as int;
    let k = (i + 1) / 2;
    assert(1 <= k <= 4);
    assert(24 * s * 1 == 24 * s);
    if i % 2 == 1 {
        assert((i + 2) / 2 == k);
    }
}

/// A click on a setting turns that one over and no other, and tells its new value.
pub proof fn law_a_setting_is_turned_over(
    screen: GuiShaders,
    x: int,
    y: int,
    before: ShaderSettings,
    after: ShaderSettings,
    actions: Seq<GuiAction>,
    i: int,
    other: Toggle,
)
    requires
        shader_clicked(screen, x, y, before, after, actions),
        first_pressed(buttons_view(screen.buttons@), x, y) == Some(i),
        0 <= i < 12,
    ensures
        after.value(toggle_at(i)) != before.value(toggle_at(i)),
        other != toggle_at(i) ==> after.value(other) == before.value(other),
        actions == seq![GuiAction::SetToggle(toggle_at(i), after.value(toggle_at(i)))],
{
}

/// Settings are what they are named: each is read from its own place.
pub proof fn law_settings_are_read_from_their_place(s: ShaderSettings)
    ensures
        s.value(Toggle::Shaders) == s.shaders,
        s.value(Toggle::Shadows) == s.shadows,
        s.value(Toggle::Specular) == s.specular,
        s.value(Toggle::Fog) == s.fog,
        s.value(Toggle::Bloom) == s.bloom,
        s.value(Toggle::VolumetricLight) == s.volumetric_light,
        s.value(Toggle::Vignette) == s.vignette,
        s.value(Toggle::Chromatic) == s.chromatic,
        s.value(Toggle::DepthOfField) == s.depth_of_field,
        s.value(Toggle::MotionBlur) == s.motion_blur,
        s.value(Toggle::AutoExposure) == s.auto_exposure,
        s.value(Toggle::Clouds) == s.clouds,
{
}

/// No two buttons turn the same setting over, and every setting has a button; only the
/// switch for shaders and the fog can be used without shaders.
pub proof fn law_every_setting_has_its_button(
    screen: Screen,
    settings: ShaderSettings,
    lang: Language,
    i: int,
    j: int,
)
    requires
        0 <= i < j < 12,
    ensures
        toggle_at(i) != toggle_at(j),
        shader_buttons(screen, settings, lang)[i].enabled <==> settings.shaders || toggle_at(i)
            == Toggle::Shaders || toggle_at(i) == Toggle::Fog,
        on_off_text(true, lang) == lang.text_for("options.on"@),
        on_off_text(false, lang) == lang.text_for("options.off"@),
{
}

} // verus!
