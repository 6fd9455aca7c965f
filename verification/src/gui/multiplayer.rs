//! The list of saved servers.

use vstd::prelude::*;
use crate::chat::lang::Language;
use crate::chat::legacy::{wrapped_lines, Font};
use crate::chat::wrap::wrap_legacy;
use crate::text::{append, append_digits, copy_text, decimal, joined, texts_of};
use super::edit_server::ServerEntry;
use super::widgets::{
    all_apart, button_at, button_pressed, buttons_view, first_pressed, nothing, only, ButtonModel,
    GuiAction, GuiButton, GuiKey, Screen, ScreenKind, UiRect,
};

verus! {

/// Two clicks on a row within this many milliseconds join the server.
pub const DOUBLE_CLICK: u64 = 350;

/// What a server answered.
#[derive(Debug)]
pub struct PingInfo {
    pub latency_ms: u64,
    pub players: String,
    pub motd: String,
    /// Some of the players that are on.
    pub sample: Vec<String>,
    /// Whether it sent a picture.
    pub favicon: bool,
}

/// How asking a server went.
#[derive(Debug)]
pub enum PingOutcome {
    Answered(PingInfo),
    Failed(String),
}

/// The list of saved servers.
#[derive(Debug)]
pub struct GuiMultiplayer {
    pub servers: Vec<ServerEntry>,
    /// What each server answered, as far as it has.
    pub pings: Vec<Option<PingOutcome>>,
    pub selected: Option<usize>,
    /// The first row that is shown.
    pub scroll: i32,
    /// The last clicked row, and when, in milliseconds.
    pub last_click: Option<(usize, u64)>,
    /// The rows that were drawn last.
    pub row_rects: Vec<(usize, UiRect)>,
    pub buttons: Vec<GuiButton>,
    /// The row that is asked about before it is removed.
    pub confirm_delete: Option<usize>,
    /// How many rows had room when the list was drawn last.
    pub last_visible: i32,
}

/// What a click or a key leads to: actions, and whether the saved list is to be
/// written and the servers asked again.
#[derive(Debug, PartialEq, Eq)]
pub struct ListResponse {
    pub actions: Vec<GuiAction>,
    pub store: bool,
    pub ask: bool,
}

// ── Selection ─────────────────────────────────────────────────────────────

/// The row selected after a step of the arrow keys: within the list, and from either
/// end where none was selected.
pub open spec fn stepped(count: int, selected: Option<usize>, delta: int) -> int {
    match selected {
        Some(i) => if i + delta < 0 {
            0
        } else if i + delta > count - 1 {
            count - 1
        } else {
            i + delta
        },
        None => if delta > 0 {
            0
        } else {
            count - 1
        },
    }
}

/// The first row shown, moved as little as shows a row.
pub open spec fn scrolled_to(scroll: int, visible: int, row: int) -> int {
    if row < scroll {
        row
    } else if visible > 0 && row >= scroll + visible {
        row - visible + 1
    } else {
        scroll
    }
}

/// A sequence with two places exchanged.
pub open spec fn exchanged<T>(s: Seq<T>, i: int, j: int) -> Seq<T> {
    s.update(i, s[j]).update(j, s[i])
}

/// Exchange two places of a list.
fn exchange<T>(list: &mut Vec<T>, i: usize, j: usize)
    requires
        i < old(list)@.len(),
        j < old(list)@.len(),
    ensures
        final(list)@ == exchanged(old(list)@, i as int, j as int),
{
    let ghost before = list@;
    if i == j {
        assert(exchanged(before, i as int, j as int) =~= before);
        return ;
    }
    let (low, high): (usize, usize) = if i < j {
        (i, j)
    } else {
        (j, i)
    };
    let b = list.remove(high);
    let a = list.remove(low);
    list.insert(low, b);
    list.insert(high, a);
    assert(list@ =~= exchanged(before, i as int, j as int));
}

// ── Layout ────────────────────────────────────────────────────────────────

/// The buttons under the list, or those that confirm a removal.
pub open spec fn list_buttons(
    screen: Screen,
    lang: Language,
    confirming: bool,
    has_selection: bool,
) -> Seq<ButtonModel> {
    let s = screen.scale as int;
    let cx = screen.width / 2;
    if confirming {
        let y = screen.height / 6 + 96 * s;
        seq![
            button_at(cx - 155 * s, y, 150 * s, s, "Delete"@),
            button_at(cx + 5 * s, y, 150 * s, s, "Cancel"@),
        ]
    } else {
        let row1 = screen.height - 52 * s;
        let row2 = screen.height - 28 * s;
        seq![
            button_at(
                cx - 154 * s,
                row1,
                100 * s,
                s,
                lang.text_for("selectServer.select"@),
            ).enabled_if(has_selection),
            button_at(cx - 50 * s, row1, 100 * s, s, lang.text_for("selectServer.direct"@)),
            button_at(cx + 54 * s, row1, 100 * s, s, lang.text_for("fpsmaster.server.add"@)),
            button_at(cx - 154 * s, row2, 70 * s, s, lang.text_for("selectServer.edit"@)).enabled_if(
                has_selection,
            ),
            button_at(cx - 74 * s, row2, 70 * s, s, lang.text_for("selectServer.delete"@)).enabled_if(
                has_selection,
            ),
            button_at(cx + 4 * s, row2, 70 * s, s, lang.text_for("selectServer.refresh"@)),
            button_at(cx + 80 * s, row2, 75 * s, s, lang.text_for("gui.cancel"@)),
        ]
    }
}

/// The buttons under the list do not overlap, and neither do those that confirm a
/// removal.
pub proof fn law_list_buttons_are_apart(
    screen: Screen,
    lang: Language,
    confirming: bool,
    has_selection: bool,
)
    requires
        screen.wf(),
    ensures
        all_apart(list_buttons(screen, lang, confirming, has_selection)),
{
    let b = list_buttons(screen, lang, confirming, has_selection);
    assert forall|i: int, j: int| 0 <= i < j < b.len() implies (#[trigger] b[i]).rect.apart((
    #[trigger] b[j]).rect) by {
        if confirming {
            assert(i == 0 && j == 1);
        } else {
            assert(b.len() == 7);
            assert(i == 0 || i == 1 || i == 2 || i == 3 || i == 4 || i == 5);
            assert(j == 1 || j == 2 || j == 3 || j == 4 || j == 5 || j == 6);
        }
    }
}

/// The first row shown, kept where rows are.
pub open spec fn kept_scroll(scroll: int, total: int, visible: int) -> int {
    let last = if total > visible {
        total - visible
    } else {
        0
    };
    if scroll < 0 {
        0
    } else if scroll > last {
        last
    } else {
        scroll
    }
}

/// Whether rows are the ones shown from `scroll` on, each with its place.
pub open spec fn are_rows(
    rows: Seq<(usize, UiRect)>,
    places: Seq<UiRect>,
    scroll: int,
    total: int,
) -> bool {
    &&& rows.len() == if total - scroll < places.len() {
        total - scroll
    } else {
        places.len() as int
    }
    &&& forall|i: int|
        0 <= i < rows.len() ==> #[trigger] rows[i] == ((scroll + i) as usize, places[i])
}

// ── Pings ─────────────────────────────────────────────────────────────────

/// The bars of a latency in milliseconds: fewer the longer it is.
pub open spec fn latency_level(ms: u64) -> int {
    if ms < 150 {
        0
    } else if ms < 300 {
        1
    } else if ms < 600 {
        2
    } else if ms < 1000 {
        3
    } else {
        4
    }
}

/// The cell of the bars: the second column while the server has not answered, where
/// the level depends on the row, and the last level where it could not be reached.
pub open spec fn bar_cell(ping: Option<PingOutcome>, row: i32) -> (int, int) {
    match ping {
        Some(PingOutcome::Answered(info)) => (0, latency_level(info.latency_ms)),
        Some(PingOutcome::Failed(_)) => (0, 5),
        None => {
            let l = row * 2 % 8;
            (
                1,
                if l > 4 {
                    8 - l
                } else {
                    l
                },
            )
        },
    }
}

/// The cell of a server's bars.
pub fn ping_bar_cell(ping: &Option<PingOutcome>, row: i32) -> (cell: (i32, i32))
    requires
        0 <= row < 0x4000_0000,
    ensures
        (cell.0 as int, cell.1 as int) == bar_cell(*ping, row),
{
    match ping {
        Some(PingOutcome::Answered(info)) => {
            let ms = info.latency_ms;
            let level: i32 = if ms < 150 {
                0
            } else if ms < 300 {
                1
            } else if ms < 600 {
                2
            } else if ms < 1000 {
                3
            } else {
                4
            };
            (0, level)
        },
        Some(PingOutcome::Failed(_)) => (0, 5),
        None => {
            let l: i32 = row * 2 % 8;
            (
                1,
                if l > 4 {
                    8 - l
                } else {
                    l
                },
            )
        },
    }
}

/// A longer latency never shows more bars.
pub proof fn law_bars_fall_with_latency(a: u64, b: u64)
    requires
        a <= b,
    ensures
        latency_level(a) <= latency_level(b) <= 4,
{
}

/// The message under a server's name.
pub open spec fn status_text(ping: Option<PingOutcome>, lang: Language) -> Seq<char> {
    match ping {
        Some(PingOutcome::Answered(info)) => "\u{a7}7"@ + info.motd@,
        Some(PingOutcome::Failed(error)) => "\u{a7}4"@ + error@,
        None => "\u{a7}7"@ + lang.text_for("fpsmaster.multiplayer.pinging"@),
    }
}

/// The message under a server's name.
pub fn status_line(ping: &Option<PingOutcome>, lang: &Language) -> (text: String)
    ensures
        text@ == status_text(*ping, *lang),
{
    match ping {
        Some(PingOutcome::Answered(info)) => joined("\u{a7}7", info.motd.as_str()),
        Some(PingOutcome::Failed(error)) => joined("\u{a7}4", error.as_str()),
        None => joined("\u{a7}7", lang.tr("fpsmaster.multiplayer.pinging").as_str()),
    }
}

/// The two lines under a server's name: the message, broken to the room there is.
pub open spec fn shown_status(
    ping: Option<PingOutcome>,
    lang: Language,
    width: int,
    font: Font,
) -> Seq<Seq<char>> {
    let all = wrapped_lines(status_text(ping, lang), width, font);
    if all.len() > 2 {
        all.take(2)
    } else {
        all
    }
}

/// The two lines under a server's name.
pub fn status_lines(ping: &Option<PingOutcome>, lang: &Language, width: i32, font: &Font) -> (lines:
    Vec<String>)
    ensures
        texts_of(lines@) == shown_status(*ping, *lang, width as int, *font),
{
    let text = status_line(ping, lang);
    let mut lines = wrap_legacy(text.as_str(), width, font);
    let ghost all = lines@;
    if lines.len() > 2 {
        lines.truncate(2);
        assert(texts_of(lines@) =~= texts_of(
            all,
        ).take(2));
    }
    lines
}

/// What hovering over the bars shows.
pub open spec fn connection_text(ping: Option<PingOutcome>) -> Seq<char> {
    match ping {
        Some(PingOutcome::Answered(info)) => decimal(info.latency_ms as int) + "ms"@,
        Some(PingOutcome::Failed(_)) => "(no connection)"@,
        None => "Pinging..."@,
    }
}

/// What hovering over the bars shows.
pub fn ping_tooltip(ping: &Option<PingOutcome>) -> (text: String)
    ensures
        text@ == connection_text(*ping),
{
    match ping {
        Some(PingOutcome::Answered(info)) => {
            let mut text = String::new();
            append_digits(&mut text, info.latency_ms);
            append(&mut text, "ms");
            assert(text@ =~= connection_text(*ping));
            text
        },
        Some(PingOutcome::Failed(_)) => copy_text("(no connection)"),
        None => copy_text("Pinging..."),
    }
}

// ── The screen ────────────────────────────────────────────────────────────

/// No server has answered.
fn unanswered(n: usize) -> (pings: Vec<Option<PingOutcome>>)
    ensures
        pings@.len() == n,
        forall|i: int| 0 <= i < n ==> #[trigger] pings@[i] is None,
{
    let mut pings: Vec<Option<PingOutcome>> = Vec::new();
    let mut i: usize = 0;
    while i < n
        invariant
            i <= n,
            pings@.len() == i,
            forall|j: int| 0 <= j < i ==> #[trigger] pings@[j] is None,
        decreases n - i,
    {
        pings.push(None);
        i += 1;
    }
    pings
}

/// No server has answered yet.
pub open spec fn none_answered(pings: Seq<Option<PingOutcome>>, n: nat) -> bool {
    pings.len() == n && forall|i: int| 0 <= i < n ==> #[trigger] pings[i] is None
}

/// The answers with one more; answers to rows that are gone are dropped.
pub open spec fn answered(
    pings: Seq<Option<PingOutcome>>,
    index: usize,
    outcome: PingOutcome,
) -> Seq<Option<PingOutcome>> {
    if index < pings.len() {
        pings.update(index as int, Some(outcome))
    } else {
        pings
    }
}

/// The answers were forgotten.
pub open spec fn refreshed(before: GuiMultiplayer, after: GuiMultiplayer) -> bool {
    &&& none_answered(after.pings@, before.servers@.len())
    &&& after == (GuiMultiplayer { pings: after.pings, ..before })
}

/// The selection moved by a step of the arrow keys, and the list scrolled as little as
/// shows it. An empty list stays as it is.
pub open spec fn selection_moved(before: GuiMultiplayer, delta: int, after: GuiMultiplayer) -> bool {
    let count = before.servers@.len() as int;
    let next = stepped(count, before.selected, delta);
    if count == 0 {
        after == before
    } else {
        &&& after.scroll == scrolled_to(before.scroll as int, before.last_visible as int, next)
        &&& after == (GuiMultiplayer {
            selected: Some(next as usize),
            scroll: after.scroll,
            ..before
        })
    }
}

/// The selected server changed places, with its answer, where there is a place to go to;
/// `store` says whether it did.
pub open spec fn server_moved(
    before: GuiMultiplayer,
    delta: int,
    after: GuiMultiplayer,
    store: bool,
) -> bool {
    let from = before.selected->0 as int;
    let to = from + delta;
    &&& store == (before.selected is Some && 0 <= to < before.servers@.len())
    &&& !store ==> after == before
    &&& store ==> {
        &&& after.servers@ == exchanged(before.servers@, from, to)
        &&& after.pings@ == if from < before.pings@.len() && to < before.pings@.len() {
            exchanged(before.pings@, from, to)
        } else {
            before.pings@
        }
        &&& after.scroll == scrolled_to(before.scroll as int, before.last_visible as int, to)
        &&& after == (GuiMultiplayer {
            servers: after.servers,
            pings: after.pings,
            selected: Some(to as usize),
            scroll: after.scroll,
            ..before
        })
    }
}

/// The server that was asked about was removed, if it is still there; `store` says
/// whether it was. Nothing is selected then, and the answers are forgotten.
pub open spec fn server_removed(before: GuiMultiplayer, after: GuiMultiplayer, store: bool) -> bool {
    let at = before.confirm_delete;
    &&& store == (at matches Some(i) && i < before.servers@.len())
    &&& !store ==> after == (GuiMultiplayer { confirm_delete: None, ..before })
    &&& store ==> {
        &&& after.servers@ == before.servers@.remove(at->0 as int)
        &&& none_answered(after.pings@, after.servers@.len())
        &&& after == (GuiMultiplayer {
            servers: after.servers,
            pings: after.pings,
            selected: None,
            confirm_delete: None,
            ..before
        })
    }
}

impl GuiMultiplayer {
    /// The list can be counted.
    pub open spec fn wf(&self) -> bool {
        self.servers@.len() <= i32::MAX
    }

    /// Whether a row is selected that there is.
    pub open spec fn has_selection(&self) -> bool {
        self.selected matches Some(i) && i < self.servers@.len()
    }

    /// The list of the given servers; none has answered.
    pub fn new(servers: Vec<ServerEntry>) -> (screen: GuiMultiplayer)
        ensures
            screen.servers == servers,
            none_answered(screen.pings@, servers@.len()),
            screen.selected is None,
            screen.scroll == 0,
            screen.last_click is None,
            screen.row_rects@ == Seq::<(usize, UiRect)>::empty(),
            screen.buttons@ == Seq::<GuiButton>::empty(),
            screen.confirm_delete is None,
            screen.last_visible == 0,
    {
        let pings = unanswered(servers.len());
        GuiMultiplayer {
            servers,
            pings,
            selected: None,
            scroll: 0,
            last_click: None,
            row_rects: Vec::new(),
            buttons: Vec::new(),
            confirm_delete: None,
            last_visible: 0,
        }
    }

    /// Forget the answers; whether there are servers to ask.
    pub fn refresh(&mut self) -> (ask: bool)
        ensures
            ask == (old(self).servers@.len() > 0),
            refreshed(*old(self), *final(self)),
    {
        self.pings = unanswered(self.servers.len());
        self.servers.len() > 0
    }

    /// A server answered; answers to rows that are gone are dropped.
    pub fn update(&mut self, index: usize, outcome: PingOutcome)
        ensures
            final(self).pings@ == answered(old(self).pings@, index, outcome),
            *final(self) == (GuiMultiplayer { pings: final(self).pings, ..*old(self) }),
    {
        if index < self.pings.len() {
            self.pings.set(index, Some(outcome));
        }
    }

    /// Join the selected server.
    pub fn join_selected(&self) -> (actions: Vec<GuiAction>)
        ensures
            actions@ == if self.has_selection() {
                seq![GuiAction::Join(self.servers@[self.selected->0 as int].address)]
            } else {
                Seq::empty()
            },
    {
        match self.selected {
            Some(i) => if i < self.servers.len() {
                only(GuiAction::Join(self.servers[i].address.clone()))
            } else {
                nothing()
            },
            None => nothing(),
        }
    }

    /// Put the buttons in place.
    pub fn layout(&mut self, screen: &Screen, lang: &Language)
        requires
            screen.wf(),
        ensures
            buttons_view(final(self).buttons@) == list_buttons(
                *screen,
                *lang,
                old(self).confirm_delete is Some,
                old(self).has_selection(),
            ),
            *final(self) == (GuiMultiplayer { buttons: final(self).buttons, ..*old(self) }),
    {
        let s: i32 = screen.scale;
        let cx: i32 = screen.width / 2;
        let mut buttons: Vec<GuiButton> = Vec::new();
        let confirming = self.confirm_delete.is_some();
        let off = match self.selected {
            Some(i) => i >= self.servers.len(),
            None => true,
        };
        if confirming {
            let y: i32 = screen.height / 6 + 96 * s;
            buttons.push(GuiButton::at_px(cx - 155 * s, y, 150 * s, s, copy_text("Delete")));
            buttons.push(GuiButton::at_px(cx + 5 * s, y, 150 * s, s, copy_text("Cancel")));
        } else {
            let row1: i32 = screen.height - 52 * s;
            let row2: i32 = screen.height - 28 * s;
            buttons.push(
                GuiButton::at_px(
                    cx - 154 * s,
                    row1,
                    100 * s,
                    s,
                    lang.tr("selectServer.select"),
                ).disabled(off),
            );
            buttons.push(
                GuiButton::at_px(cx - 50 * s, row1, 100 * s, s, lang.tr("selectServer.direct")),
            );
            buttons.push(
                GuiButton::at_px(cx + 54 * s, row1, 100 * s, s, lang.tr("fpsmaster.server.add")),
            );
            buttons.push(
                GuiButton::at_px(
                    cx - 154 * s,
                    row2,
                    70 * s,
                    s,
                    lang.tr("selectServer.edit"),
                ).disabled(off),
            );
            buttons.push(
                GuiButton::at_px(
                    cx - 74 * s,
                    row2,
                    70 * s,
                    s,
                    lang.tr("selectServer.delete"),
                ).disabled(off),
            );
            buttons.push(
                GuiButton::at_px(cx + 4 * s, row2, 70 * s, s, lang.tr("selectServer.refresh")),
            );
            buttons.push(GuiButton::at_px(cx + 80 * s, row2, 75 * s, s, lang.tr("gui.cancel")));
        }
        self.buttons = buttons;
        assert(buttons_view(self.buttons@) =~= list_buttons(*screen, *lang, confirming, !off));
    }

    /// Lay out the rows that have room, given a place for each.
    pub fn layout_rows(&mut self, places: &Vec<UiRect>)
        requires
            old(self).wf(),
            places@.len() <= i32::MAX,
        ensures
            final(self).scroll == kept_scroll(
                old(self).scroll as int,
                old(self).servers@.len() as int,
                places@.len() as int,
            ),
            final(self).last_visible == places@.len(),
            are_rows(
                final(self).row_rects@,
                places@,
                final(self).scroll as int,
                old(self).servers@.len() as int,
            ),
            *final(self) == (GuiMultiplayer {
                scroll: final(self).scroll,
                last_visible: final(self).last_visible,
                row_rects: final(self).row_rects,
                ..*old(self)
            }),
    {
        let total: i32 = self.servers.len() as i32;
        let visible: i32 = places.len() as i32;
        self.last_visible = visible;
        let last: i32 = if total > visible {
            total - visible
        } else {
            0
        };
        let scroll: i32 = if self.scroll < 0 {
            0
        } else if self.scroll > last {
            last
        } else {
            self.scroll
        };
        self.scroll = scroll;
        let n: i32 = if total - scroll < visible {
            total - scroll
        } else {
            visible
        };
        let mut rows: Vec<(usize, UiRect)> = Vec::new();
        let mut i: i32 = 0;
        while i < n
            invariant
                0 <= i <= n <= places@.len(),
                0 <= scroll,
                scroll + n <= i32::MAX,
                rows@.len() == i,
                forall|j: int|
                    0 <= j < i ==> #[trigger] rows@[j] == ((scroll + j) as usize, places@[j]),
            decreases n - i,
        {
            rows.push(((scroll + i) as usize, places[i as usize]));
            i += 1;
        }
        self.row_rects = rows;
    }

    /// Move the selection, and scroll as little as shows it.
    pub fn select_delta(&mut self, delta: i32)
        requires
            old(self).wf(),
        ensures
            selection_moved(*old(self), delta as int, *final(self)),
    {
        let count: i64 = self.servers.len() as i64;
        if count == 0 {
            return ;
        }
        let next: i64 = match self.selected {
            Some(i) => {
                let to: i128 = i as i128 + delta as i128;
                if to < 0 {
                    0
                } else if to > (count - 1) as i128 {
                    count - 1
                } else {
                    to as i64
                }
            },
            None => if delta > 0 {
                0
            } else {
                count - 1
            },
        };
        self.selected = Some(next as usize);
        if next < self.scroll as i64 {
            self.scroll = next as i32;
        } else if self.last_visible > 0 && next >= self.scroll as i64 + self.last_visible as i64 {
            self.scroll = (next - self.last_visible as i64 + 1) as i32;
        }
    }

    /// Move the selected server within the list, with its answer; whether the list
    /// is to be written.
    pub fn move_selected(&mut self, delta: i32) -> (store: bool)
        requires
            old(self).wf(),
            old(self).selected matches Some(i) ==> (0 <= i + delta < old(self).servers@.len()
                ==> i < old(self).servers@.len()),
        ensures
            final(self).wf(),
            server_moved(*old(self), delta as int, *final(self), store),
    {
        let index: usize = match self.selected {
            Some(i) => i,
            None => {
                return false;
            },
        };
        let target: i128 = index as i128 + delta as i128;
        if target < 0 || target >= self.servers.len() as i128 {
            return false;
        }
        let target: usize = target as usize;
        exchange(&mut self.servers, index, target);
        if index < self.pings.len() && target < self.pings.len() {
            exchange(&mut self.pings, index, target);
        }
        self.selected = Some(target);
        self.select_delta(0);
        true
    }

    /// Remove the row that was asked about, if it is still there; whether the list is
    /// to be written.
    pub fn confirm_delete_now(&mut self) -> (store: bool)
        ensures
            server_removed(*old(self), *final(self), store),
    {
        let at = self.confirm_delete;
        self.confirm_delete = None;
        match at {
            Some(i) => if i < self.servers.len() {
                let _gone = self.servers.remove(i);
                self.selected = None;
                self.refresh();
                true
            } else {
                false
            },
            None => false,
        }
    }
}

/// The first row at a pixel, from the `i`-th shown on.
pub open spec fn row_from(rows: Seq<(usize, UiRect)>, x: int, y: int, i: int) -> Option<usize>
    decreases rows.len() - i,
{
    if i < 0 || i >= rows.len() {
        None
    } else if rows[i].1.spec_contains(x, y) {
        Some(rows[i].0)
    } else {
        row_from(rows, x, y, i + 1)
    }
}

/// Whether a click on a row makes two in a row.
pub open spec fn is_double(last: Option<(usize, u64)>, row: usize, now: u64) -> bool {
    last matches Some((r, at)) && r == row && now - at < DOUBLE_CLICK
}

/// What a click on the list leads to: a click on a row selects it, and the second in
/// quick succession joins the server; removing a server is asked about first.
pub open spec fn list_clicked(
    before: GuiMultiplayer,
    x: int,
    y: int,
    now: u64,
    after: GuiMultiplayer,
    actions: Seq<GuiAction>,
    store: bool,
    ask: bool,
) -> bool {
    let pressed = first_pressed(buttons_view(before.buttons@), x, y);
    let none = Seq::<GuiAction>::empty();
    if before.confirm_delete is Some {
        &&& actions == none
        &&& if pressed == Some(0int) {
            &&& server_removed(before, after, store)
            &&& ask == (store && after.servers@.len() > 0)
        } else {
            &&& !store && !ask
            &&& after == if pressed == Some(1int) {
                GuiMultiplayer { confirm_delete: None, ..before }
            } else {
                before
            }
        }
    } else {
        match row_from(before.row_rects@, x, y, 0) {
            Some(row) => {
                &&& !store && !ask
                &&& after == (GuiMultiplayer {
                    selected: Some(row),
                    last_click: Some((row, now)),
                    ..before
                })
                &&& actions == if is_double(before.last_click, row, now) && row
                    < before.servers@.len() {
                    seq![GuiAction::Join(before.servers@[row as int].address)]
                } else {
                    none
                }
            },
            None => if before.buttons@.len() < 7 {
                after == before && actions == none && !store && !ask
            } else if pressed == Some(5int) {
                &&& actions == none && !store
                &&& ask == (before.servers@.len() > 0)
                &&& refreshed(before, after)
            } else {
                &&& !store && !ask
                &&& after == if pressed == Some(4int) && before.has_selection() {
                    GuiMultiplayer { confirm_delete: before.selected, ..before }
                } else {
                    before
                }
                &&& actions == match pressed {
                    Some(i) => if i == 0 && before.has_selection() {
                        seq![GuiAction::Join(before.servers@[before.selected->0 as int].address)]
                    } else if i == 1 {
                        seq![GuiAction::SetScreen(ScreenKind::DirectConnect)]
                    } else if i == 2 {
                        seq![GuiAction::SetScreen(ScreenKind::AddServer)]
                    } else if i == 3 && before.has_selection() {
                        seq![GuiAction::SetScreen(ScreenKind::EditServer(before.selected->0))]
                    } else if i == 6 {
                        seq![GuiAction::SetScreen(ScreenKind::MainMenu)]
                    } else {
                        none
                    },
                    None => none,
                }
            },
        }
    }
}

/// What a key in the list leads to. While a removal is asked about, only escape and
/// enter do something; else the arrow keys move the selection, or with shift the
/// selected server.
pub open spec fn list_key(
    before: GuiMultiplayer,
    key: GuiKey,
    shift: bool,
    after: GuiMultiplayer,
    actions: Seq<GuiAction>,
    store: bool,
    ask: bool,
) -> bool {
    let delta: int = if key == GuiKey::Up {
        -1
    } else {
        1
    };
    if before.confirm_delete is Some {
        &&& actions == Seq::<GuiAction>::empty()
        &&& if key == GuiKey::Enter {
            &&& server_removed(before, after, store)
            &&& ask == (store && after.servers@.len() > 0)
        } else {
            &&& !store && !ask
            &&& after == if key == GuiKey::Escape {
                GuiMultiplayer { confirm_delete: None, ..before }
            } else {
                before
            }
        }
    } else {
        &&& actions == if key == GuiKey::Escape {
            seq![GuiAction::SetScreen(ScreenKind::MainMenu)]
        } else if key == GuiKey::Enter && before.has_selection() {
            seq![GuiAction::Join(before.servers@[before.selected->0 as int].address)]
        } else {
            Seq::<GuiAction>::empty()
        }
        &&& ask == (key == GuiKey::Refresh && before.servers@.len() > 0)
        &&& if key == GuiKey::Up || key == GuiKey::Down {
            if shift {
                server_moved(before, delta, after, store)
            } else {
                !store && selection_moved(before, delta, after)
            }
        } else if key == GuiKey::Refresh {
            !store && refreshed(before, after)
        } else {
            !store && after == before
        }
    }
}

impl GuiMultiplayer {
    fn row_at(&self, x: i32, y: i32) -> (row: Option<usize>)
        ensures
            row == row_from(self.row_rects@, x as int, y as int, 0),
    {
        let mut i: usize = 0;
        while i < self.row_rects.len()
            invariant
                i <= self.row_rects@.len(),
                row_from(self.row_rects@, x as int, y as int, 0) == row_from(
                    self.row_rects@,
                    x as int,
                    y as int,
                    i as int,
                ),
            decreases self.row_rects@.len() - i,
        {
            if self.row_rects[i].1.contains(x, y) {
                return Some(self.row_rects[i].0);
            }
            i += 1;
        }
        None
    }

    /// A click at a time in milliseconds.
    pub fn mouse_clicked(&mut self, x: i32, y: i32, now: u64) -> (done: ListResponse)
        ensures
            list_clicked(
                *old(self),
                x as int,
                y as int,
                now,
                *final(self),
                done.actions@,
                done.store,
                done.ask,
            ),
    {
        let pressed = button_pressed(&self.buttons, x, y);
        let mut done = ListResponse { actions: nothing(), store: false, ask: false };
        if self.confirm_delete.is_some() {
            match pressed {
                Some(0) => {
                    done.store = self.confirm_delete_now();
                    done.ask = done.store && self.servers.len() > 0;
                },
                Some(1) => {
                    self.confirm_delete = None;
                },
                _ => {},
            }
            return done;
        }
        if let Some(row) = self.row_at(x, y) {
            let double = match self.last_click {
                Some((r, at)) => r == row && (now as i128) - (at as i128) < DOUBLE_CLICK as i128,
                None => false,
            };
            self.selected = Some(row);
            self.last_click = Some((row, now));
            if double {
                done.actions = self.join_selected();
            }
            return done;
        }
        if self.buttons.len() < 7 {
            return done;
        }
        match pressed {
            Some(0) => {
                done.actions = self.join_selected();
            },
            Some(1) => {
                done.actions = only(GuiAction::SetScreen(ScreenKind::DirectConnect));
            },
            Some(2) => {
                done.actions = only(GuiAction::SetScreen(ScreenKind::AddServer));
            },
            Some(3) => {
                if let Some(i) = self.selected {
                    if i < self.servers.len() {
                        done.actions = only(GuiAction::SetScreen(ScreenKind::EditServer(i)));
                    }
                }
            },
            Some(4) => {
                if let Some(i) = self.selected {
                    if i < self.servers.len() {
                        self.confirm_delete = Some(i);
                    }
                }
            },
            Some(5) => {
                done.ask = self.refresh();
            },
            Some(6) => {
                done.actions = only(GuiAction::SetScreen(ScreenKind::MainMenu));
            },
            _ => {},
        }
        done
    }

    /// The wheel turned by a step, up or down.
    pub fn mouse_scrolled(&mut self, step: i32)
        requires
            -1 <= step <= 1,
            old(self).scroll < i32::MAX,
        ensures
            final(self).scroll == super::controls::wheeled(old(self).scroll as int, step as int),
            *final(self) == (GuiMultiplayer { scroll: final(self).scroll, ..*old(self) }),
    {
        let to: i64 = self.scroll as i64 - step as i64;
        self.scroll = if to > 0 {
            to as i32
        } else {
            0
        };
    }

    /// A key. While a removal is asked about, only escape and enter do something.
    pub fn key_pressed(&mut self, key: GuiKey, shift: bool) -> (done: ListResponse)
        requires
            old(self).wf(),
            shift && key == GuiKey::Up && old(self).confirm_delete is None ==> (old(
                self,
            ).selected matches Some(i) ==> (0 <= i - 1 < old(self).servers@.len() ==> i < old(
                self,
            ).servers@.len())),
        ensures
            list_key(
                *old(self),
                key,
                shift,
                *final(self),
                done.actions@,
                done.store,
                done.ask,
            ),
    {
        let mut done = ListResponse { actions: nothing(), store: false, ask: false };
        if self.confirm_delete.is_some() {
            match key {
                GuiKey::Escape => {
                    self.confirm_delete = None;
                },
                GuiKey::Enter => {
                    done.store = self.confirm_delete_now();
                    done.ask = done.store && self.servers.len() > 0;
                },
                _ => {},
            }
            return done;
        }
        match key {
            GuiKey::Escape => {
                done.actions = only(GuiAction::SetScreen(ScreenKind::MainMenu));
            },
            GuiKey::Enter => {
                done.actions = self.join_selected();
            },
            GuiKey::Up => {
                if shift {
                    done.store = self.move_selected(-1);
                } else {
                    self.select_delta(-1);
                }
            },
            GuiKey::Down => {
                if shift {
                    done.store = self.move_selected(1);
                } else {
                    self.select_delta(1);
                }
            },
            GuiKey::Refresh => {
                done.ask = self.refresh();
            },
            _ => {},
        }
        done
    }
}

/// A step of the arrow keys selects a row that there is, and shows it.
pub proof fn law_the_selection_is_shown(
    count: int,
    selected: Option<usize>,
    delta: int,
    scroll: int,
    visible: int,
)
    requires
        count > 0,
        visible > 0,
    ensures
        ({
            let next = stepped(count, selected, delta);
            let first = scrolled_to(scroll, visible, next);
            0 <= next < count && first <= next < first + visible
        }),
{
}

/// Moving a server up and down again leaves the list as it was.
pub proof fn law_moving_back_restores<T>(list: Seq<T>, i: int, j: int)
    requires
        0 <= i < list.len(),
        0 <= j < list.len(),
    ensures
        exchanged(exchanged(list, i, j), j, i) == list,
{
    assert(exchanged(exchanged(list, i, j), j, i) =~= list);
}

} // verus!
