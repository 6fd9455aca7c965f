//! What the list of saved servers draws.

use vstd::prelude::*;
use crate::chat::lang::Language;
use crate::chat::legacy::{spec_text_width, text_width, Font};
use crate::text::{copy_text, joined, texts_of};
use super::controls::place_fits;
use super::marks::{
    all_buttons, line, marks_view, put, put_all, put_buttons, put_text, sprite, GuiTexture, Ink,
    Mark, MarkModel, Shape, TextAt,
};
use super::multiplayer::{
    are_rows, bar_cell, connection_text, kept_scroll, law_bars_fall_with_latency, list_buttons,
    ping_bar_cell, ping_tooltip, shown_status, status_lines, GuiMultiplayer, PingOutcome,
};
use super::widgets::{buttons_view, half, halved, Screen, UiRect};

verus! {

/// What a server answered, as far as it has.
pub open spec fn ping_of(list: GuiMultiplayer, server: int) -> Option<PingOutcome> {
    if 0 <= server < list.pings@.len() {
        list.pings@[server]
    } else {
        None
    }
}

// ── A row ─────────────────────────────────────────────────────────────────

/// A server's picture, or a plate in its place.
pub open spec fn icon_marks(ping: Option<PingOutcome>, server: int, rect: UiRect, s: int) -> Seq<
    MarkModel,
> {
    let icon = UiRect { x: rect.x, y: rect.y, width: (32 * s) as i32, height: (32 * s) as i32 };
    if ping matches Some(PingOutcome::Answered(info)) && info.favicon {
        seq![MarkModel::Shape(Shape::Favicon { rect: icon, server: server as usize })]
    } else {
        seq![
            MarkModel::Shape(Shape::Fill { rect: icon, ink: Ink::Rgba(0, 0, 0, 160) }),
            MarkModel::Shape(
                Shape::Fill {
                    rect: UiRect { height: s as i32, ..icon },
                    ink: Ink::Rgba(80, 80, 80, 255),
                },
            ),
        ]
    }
}

/// Where the number of players ends.
pub open spec fn population_end(rect: UiRect, s: int) -> int {
    rect.x + rect.width - 17 * s
}

/// How many players are on, if the server has answered.
pub open spec fn population_text(ping: Option<PingOutcome>) -> Option<Seq<char>> {
    match ping {
        Some(PingOutcome::Answered(info)) => Some("\u{a7}7"@ + info.players@),
        _ => None,
    }
}

/// The lines under a server's name.
pub open spec fn status_marks(lines: Seq<Seq<char>>, rect: UiRect, s: int) -> Seq<MarkModel> {
    Seq::new(
        lines.len(),
        |i: int|
            line(
                TextAt::Shadowed {
                    x: (rect.x + 35 * s) as i32,
                    y: (rect.y + 12 * s + i * 9 * s) as i32,
                },
                Ink::Gray,
                lines[i],
            ),
    )
}

/// Where a row has its bars.
pub open spec fn bar_rect(rect: UiRect, s: int) -> UiRect {
    UiRect {
        x: (rect.x + rect.width - 15 * s) as i32,
        y: rect.y,
        width: (10 * s) as i32,
        height: (8 * s) as i32,
    }
}

/// The row of a server that is the `i`-th shown.
pub open spec fn row_marks(
    list: GuiMultiplayer,
    i: int,
    server: int,
    rect: UiRect,
    s: int,
    lang: Language,
    font: Font,
) -> Seq<MarkModel> {
    let ping = ping_of(list, server);
    let cell = bar_cell(ping, i as i32);
    (if list.selected == Some(server as usize) {
        seq![MarkModel::Shape(Shape::Selection { rect })]
    } else {
        Seq::empty()
    }) + icon_marks(ping, server, rect, s) + seq![
        line(
            TextAt::Fitted {
                x: (rect.x + 35 * s) as i32,
                y: (rect.y + s) as i32,
                width: (rect.width - 95 * s) as i32,
            },
            Ink::White,
            list.servers@[server].name@,
        ),
    ] + (match population_text(ping) {
        Some(text) => seq![
            line(
                TextAt::Ending { x: population_end(rect, s) as i32, y: (rect.y + s) as i32 },
                Ink::Gray,
                text,
            ),
        ],
        None => Seq::empty(),
    }) + status_marks(shown_status(ping, lang, rect.width - 37 * s, font), rect, s) + seq![
        sprite(
            bar_rect(rect, s),
            GuiTexture::Icons,
            cell.0 * 10,
            176 + cell.1 * 8,
            10,
            8,
        ),
    ]
}

/// What is told of a row with the pointer at a pixel: of the connection at its bars, of
/// the players at their number.
pub open spec fn row_tip(ping: Option<PingOutcome>, rect: UiRect, s: int, x: int, y: int, font: Font) -> Option<
    Seq<Seq<char>>,
> {
    if bar_rect(rect, s).spec_contains(x, y) {
        Some(seq![connection_text(ping)])
    } else {
        match ping {
            Some(PingOutcome::Answered(info)) => {
                let end = population_end(rect, s);
                let width = spec_text_width("\u{a7}7"@ + info.players@, font);
                if info.sample@.len() > 0 && end - width <= x < end && rect.y + s <= y < rect.y + 9
                    * s {
                    Some(texts_of(info.sample@))
                } else {
                    None
                }
            },
            _ => None,
        }
    }
}

/// A copy of texts.
fn copy_texts(texts: &Vec<String>) -> (copy: Vec<String>)
    ensures
        texts_of(copy@) == texts_of(texts@),
{
    let mut copy: Vec<String> = Vec::new();
    let mut i: usize = 0;
    while i < texts.len()
        invariant
            i <= texts@.len(),
            copy@.len() == i,
            forall|j: int| 0 <= j < i ==> (#[trigger] copy@[j])@ == texts@[j]@,
        decreases texts@.len() - i,
    {
        copy.push(copy_text(texts[i].as_str()));
        i += 1;
    }
    assert(texts_of(copy@) =~= texts_of(texts@));
    copy
}

fn bars_place(rect: UiRect, s: i32) -> (bars: UiRect)
    requires
        place_fits(rect),
        0 <= s <= 0x1_0000,
    ensures
        bars == bar_rect(rect, s as int),
{
    UiRect { x: rect.x + rect.width - 15 * s, y: rect.y, width: 10 * s, height: 8 * s }
}

/// What is told of a row with the pointer at a pixel.
pub fn row_tooltip(
    ping: &Option<PingOutcome>,
    rect: UiRect,
    s: i32,
    x: i32,
    y: i32,
    font: &Font,
) -> (lines: Option<Vec<String>>)
    requires
        place_fits(rect),
        0 <= s <= 0x1_0000,
    ensures
        match lines {
            Some(l) => row_tip(*ping, rect, s as int, x as int, y as int, *font) == Some(texts_of(l@)),
            None => row_tip(*ping, rect, s as int, x as int, y as int, *font) is None,
        },
{
    if bars_place(rect, s).contains(x, y) {
        let mut lines: Vec<String> = Vec::new();
        lines.push(ping_tooltip(ping));
        assert(texts_of(lines@) =~= seq![connection_text(*ping)]);
        return Some(lines);
    }
    if let Some(PingOutcome::Answered(info)) = ping {
        let text = joined("\u{a7}7", info.players.as_str());
        let width: u128 = text_width(text.as_str(), font);
        let end: i32 = rect.x + rect.width - 17 * s;
        let before_end: i64 = end as i64 - x as i64;
        if info.sample.len() > 0 && before_end > 0 && before_end as u128 <= width && rect.y + s <= y
            && y < rect.y + 9 * s {
            return Some(copy_texts(&info.sample));
        }
    }
    None
}

fn draw_icon(ping: &Option<PingOutcome>, server: usize, rect: UiRect, s: i32) -> (marks: Vec<Mark>)
    requires
        place_fits(rect),
        0 <= s <= 0x1_0000,
    ensures
        marks_view(marks@) == icon_marks(*ping, server as int, rect, s as int),
{
    let mut marks: Vec<Mark> = Vec::new();
    let icon = UiRect { x: rect.x, y: rect.y, width: 32 * s, height: 32 * s };
    let sent = match ping {
        Some(PingOutcome::Answered(info)) => info.favicon,
        _ => false,
    };
    if sent {
        put(&mut marks, Shape::Favicon { rect: icon, server });
    } else {
        put(&mut marks, Shape::Fill { rect: icon, ink: Ink::Rgba(0, 0, 0, 160) });
        put(
            &mut marks,
            Shape::Fill {
                rect: UiRect { x: icon.x, y: icon.y, width: icon.width, height: s },
                ink: Ink::Rgba(80, 80, 80, 255),
            },
        );
    }
    assert(marks_view(marks@) =~= icon_marks(*ping, server as int, rect, s as int));
    marks
}

fn draw_status(lines: &Vec<String>, rect: UiRect, s: i32) -> (marks: Vec<Mark>)
    requires
        place_fits(rect),
        0 <= s <= 0x1_0000,
        lines@.len() <= 2,
    ensures
        marks_view(marks@) == status_marks(texts_of(lines@), rect, s as int),
{
    let mut marks: Vec<Mark> = Vec::new();
    let ghost all = status_marks(texts_of(lines@), rect, s as int);
    let mut i: usize = 0;
    while i < lines.len()
        invariant
            i <= lines@.len() <= 2,
            place_fits(rect),
            0 <= s <= 0x1_0000,
            all == status_marks(texts_of(lines@), rect, s as int),
            marks_view(marks@) =~= all.take(i as int),
        decreases lines@.len() - i,
    {
        let down: i32 = if i == 0 {
            0
        } else {
            9 * s
        };
        assert(down == i * 9 * s) by (nonlinear_arith)
            requires
                i == 0 && down == 0 || i == 1 && down == 9 * s,
        ;
        put_text(
            &mut marks,
            TextAt::Shadowed { x: rect.x + 35 * s, y: rect.y + 12 * s + down },
            Ink::Gray,
            copy_text(lines[i].as_str()),
        );
        i += 1;
        assert(all.take(i as int) =~= all.take(i - 1).push(all[i - 1]));
    }
    assert(all.take(i as int) =~= all);
    marks
}

proof fn lemma_bar_cell(ping: Option<PingOutcome>, row: i32)
    requires
        0 <= row,
    ensures
        0 <= bar_cell(ping, row).0 <= 1,
        0 <= bar_cell(ping, row).1 <= 5,
{
    if let Some(PingOutcome::Answered(info)) = ping {
        law_bars_fall_with_latency(0, info.latency_ms);
    }
}

impl GuiMultiplayer {
    /// Draw the row of a server that is the `i`-th shown.
    fn draw_row(
        &self,
        i: usize,
        server: usize,
        rect: UiRect,
        s: i32,
        lang: &Language,
        font: &Font,
    ) -> (marks: Vec<Mark>)
        requires
            server < self.servers@.len(),
            i < 0x4000_0000,
            place_fits(rect),
            0 <= s <= 0x1_0000,
        ensures
            marks_view(marks@) == row_marks(
                *self,
                i as int,
                server as int,
                rect,
                s as int,
                *lang,
                *font,
            ),
    {
        let mut marks: Vec<Mark> = Vec::new();
        let unanswered: Option<PingOutcome> = None;
        let ping = if server < self.pings.len() {
            &self.pings[server]
        } else {
            &unanswered
        };
        let selected = match self.selected {
            Some(row) => row == server,
            None => false,
        };
        if selected {
            put(&mut marks, Shape::Selection { rect });
        }
        put_all(&mut marks, draw_icon(ping, server, rect, s));
        put_text(
            &mut marks,
            TextAt::Fitted { x: rect.x + 35 * s, y: rect.y + s, width: rect.width - 95 * s },
            Ink::White,
            copy_text(self.servers[server].name.as_str()),
        );
        if let Some(PingOutcome::Answered(info)) = ping {
            put_text(
                &mut marks,
                TextAt::Ending { x: rect.x + rect.width - 17 * s, y: rect.y + s },
                Ink::Gray,
                joined("\u{a7}7", info.players.as_str()),
            );
        }
        let lines = status_lines(ping, lang, rect.width - 37 * s, font);
        assert(lines@.len() == texts_of(lines@).len());
        put_all(&mut marks, draw_status(&lines, rect, s));
        let (k, l) = ping_bar_cell(ping, i as i32);
        proof {
            lemma_bar_cell(*ping, i as i32);
        }
        put(
            &mut marks,
            Shape::Sprite {
                rect: bars_place(rect, s),
                sheet: GuiTexture::Icons,
                u: (k * 10) as u32,
                v: (176 + l * 8) as u32,
                width: 10,
                height: 8,
            },
        );
        assert(marks_view(marks@) =~= row_marks(
            *self,
            i as int,
            server as int,
            rect,
            s as int,
            *lang,
            *font,
        ));
        marks
    }
}

// ── The list ──────────────────────────────────────────────────────────────

/// The first `n` rows shown.
pub open spec fn rows_marks(list: GuiMultiplayer, n: int, s: int, lang: Language, font: Font) -> Seq<
    MarkModel,
>
    decreases n,
{
    if n <= 0 {
        Seq::empty()
    } else {
        let (server, rect) = list.row_rects@[n - 1];
        rows_marks(list, n - 1, s, lang, font) + row_marks(
            list,
            n - 1,
            server as int,
            rect,
            s,
            lang,
            font,
        )
    }
}

/// What is told with the pointer at a pixel: of the last of the first `n` rows that has
/// something to tell.
pub open spec fn rows_tip(list: GuiMultiplayer, n: int, s: int, x: int, y: int, font: Font) -> Option<
    Seq<Seq<char>>,
>
    decreases n,
{
    if n <= 0 {
        None
    } else {
        let (server, rect) = list.row_rects@[n - 1];
        match row_tip(ping_of(list, server as int), rect, s, x, y, font) {
            Some(lines) => Some(lines),
            None => rows_tip(list, n - 1, s, x, y, font),
        }
    }
}

/// The question before a server is removed.
pub open spec fn question_marks(list: GuiMultiplayer, index: usize, screen: Screen) -> Seq<MarkModel> {
    let s = screen.scale as int;
    let top = screen.height / 6;
    seq![
        MarkModel::Shape(Shape::Background),
        line(
            TextAt::Centered { y: (top + 20 * s) as i32 },
            Ink::White,
            "Are you sure you want to remove this server?"@,
        ),
        line(
            TextAt::Centered { y: (top + 44 * s) as i32 },
            Ink::White,
            if index < list.servers@.len() {
                list.servers@[index as int].name@
            } else {
                Seq::empty()
            },
        ),
        line(
            TextAt::Centered { y: (top + 60 * s) as i32 },
            Ink::Gray,
            "It will be lost forever! (A long time!)"@,
        ),
    ] + all_buttons(list.buttons@.len())
}

/// The list between two heights.
pub open spec fn list_marks(
    list: GuiMultiplayer,
    top: int,
    bottom: int,
    s: int,
    lang: Language,
    font: Font,
) -> Seq<MarkModel> {
    let total = list.servers@.len() as int;
    seq![
        MarkModel::Shape(Shape::Background),
        line(
            TextAt::Centered { y: (16 * s) as i32 },
            Ink::White,
            lang.text_for("multiplayer.title"@),
        ),
        MarkModel::Shape(Shape::ListBackground),
    ] + (if total == 0 {
        seq![
            line(
                TextAt::Centered { y: (halved(top + bottom) - 4 * s) as i32 },
                Ink::Gray,
                lang.text_for("fpsmaster.multiplayer.empty"@),
            ),
        ]
    } else {
        Seq::empty()
    }) + rows_marks(list, list.row_rects@.len() as int, s, lang, font) + seq![
        MarkModel::Shape(
            Shape::Scrollbar {
                scroll: list.scroll,
                last: if total > list.last_visible {
                    (total - list.last_visible) as i32
                } else {
                    0
                },
                total: total as i32,
            },
        ),
    ] + all_buttons(list.buttons@.len())
}

impl GuiMultiplayer {
    fn draw_question(&self, index: usize, screen: &Screen) -> (marks: Vec<Mark>)
        requires
            screen.wf(),
        ensures
            marks_view(marks@) == question_marks(*self, index, *screen),
    {
        let mut marks: Vec<Mark> = Vec::new();
        let s: i32 = screen.scale;
        let top: i32 = screen.height / 6;
        put(&mut marks, Shape::Background);
        put_text(
            &mut marks,
            TextAt::Centered { y: top + 20 * s },
            Ink::White,
            copy_text("Are you sure you want to remove this server?"),
        );
        let name = if index < self.servers.len() {
            copy_text(self.servers[index].name.as_str())
        } else {
            String::new()
        };
        put_text(&mut marks, TextAt::Centered { y: top + 44 * s }, Ink::White, name);
        put_text(
            &mut marks,
            TextAt::Centered { y: top + 60 * s },
            Ink::Gray,
            copy_text("It will be lost forever! (A long time!)"),
        );
        put_buttons(&mut marks, self.buttons.len());
        assert(marks_view(marks@) =~= question_marks(*self, index, *screen));
        marks
    }

    /// Draw the list: put the buttons and the rows in place, and say what is drawn and
    /// what is told of what the pointer is over. While a removal is asked about, only
    /// the question is drawn.
    pub fn draw(
        &mut self,
        screen: &Screen,
        places: &Vec<UiRect>,
        top: i32,
        bottom: i32,
        x: i32,
        y: i32,
        lang: &Language,
        font: &Font,
    ) -> (picture: (Vec<Mark>, Option<Vec<String>>))
        requires
            old(self).wf(),
            screen.wf(),
            places@.len() < 0x4000_0000,
            forall|i: int| 0 <= i < places@.len() ==> place_fits(#[trigger] places@[i]),
            -0x1000_0000 <= top <= 0x1000_0000,
            -0x1000_0000 <= bottom <= 0x1000_0000,
        ensures
            buttons_view(final(self).buttons@) == list_buttons(
                *screen,
                *lang,
                old(self).confirm_delete is Some,
                old(self).has_selection(),
            ),
            match old(self).confirm_delete {
                Some(index) => {
                    &&& *final(self) == (GuiMultiplayer {
                        buttons: final(self).buttons,
                        ..*old(self)
                    })
                    &&& marks_view(picture.0@) == question_marks(*final(self), index, *screen)
                    &&& picture.1 is None
                },
                None => {
                    &&& final(self).scroll == kept_scroll(
                        old(self).scroll as int,
                        old(self).servers@.len() as int,
                        places@.len() as int,
                    )
                    &&& final(self).last_visible == places@.len()
                    &&& are_rows(
                        final(self).row_rects@,
                        places@,
                        final(self).scroll as int,
                        old(self).servers@.len() as int,
                    )
                    &&& *final(self) == (GuiMultiplayer {
                        buttons: final(self).buttons,
                        scroll: final(self).scroll,
                        last_visible: final(self).last_visible,
                        row_rects: final(self).row_rects,
                        ..*old(self)
                    })
                    &&& marks_view(picture.0@) == list_marks(
                        *final(self),
                        top as int,
                        bottom as int,
                        screen.scale as int,
                        *lang,
                        *font,
                    )
                    &&& match picture.1 {
                        Some(lines) => rows_tip(
                            *final(self),
                            final(self).row_rects@.len() as int,
                            screen.scale as int,
                            x as int,
                            y as int,
                            *font,
                        ) == Some(texts_of(lines@)),
                        None => rows_tip(
                            *final(self),
                            final(self).row_rects@.len() as int,
                            screen.scale as int,
                            x as int,
                            y as int,
                            *font,
                        ) is None,
                    }
                },
            },
    {
        self.layout(screen, lang);
        if let Some(index) = self.confirm_delete {
            return (self.draw_question(index, screen), None);
        }
        self.layout_rows(places);
        let s: i32 = screen.scale;
        let total: i32 = self.servers.len() as i32;
        let mut marks: Vec<Mark> = Vec::new();
        put(&mut marks, Shape::Background);
        put_text(
            &mut marks,
            TextAt::Centered { y: 16 * s },
            Ink::White,
            lang.tr("multiplayer.title"),
        );
        put(&mut marks, Shape::ListBackground);
        if total == 0 {
            put_text(
                &mut marks,
                TextAt::Centered { y: half(top + bottom) - 4 * s },
                Ink::Gray,
                lang.tr("fpsmaster.multiplayer.empty"),
            );
        }
        let (rows, tip) = self.draw_rows(s, x, y, lang, font, Ghost(places@));
        put_all(&mut marks, rows);
        put(
            &mut marks,
            Shape::Scrollbar {
                scroll: self.scroll,
                last: if total > self.last_visible {
                    total - self.last_visible
                } else {
                    0
                },
                total,
            },
        );
        put_buttons(&mut marks, self.buttons.len());
        assert(marks_view(marks@) =~= list_marks(
            *self,
            top as int,
            bottom as int,
            screen.scale as int,
            *lang,
            *font,
        ));
        (marks, tip)
    }

    fn draw_rows(
        &self,
        s: i32,
        x: i32,
        y: i32,
        lang: &Language,
        font: &Font,
        Ghost(places): Ghost<Seq<UiRect>>,
    ) -> (drawn: (Vec<Mark>, Option<Vec<String>>))
        requires
            self.wf(),
            0 <= s <= 0x1_0000,
            0 <= self.scroll,
            places.len() < 0x4000_0000,
            forall|i: int| 0 <= i < places.len() ==> place_fits(#[trigger] places[i]),
            are_rows(
                self.row_rects@,
                places,
                self.scroll as int,
                self.servers@.len() as int,
            ),
        ensures
            marks_view(drawn.0@) == rows_marks(
                *self,
                self.row_rects@.len() as int,
                s as int,
                *lang,
                *font,
            ),
            match drawn.1 {
                Some(lines) => rows_tip(
                    *self,
                    self.row_rects@.len() as int,
                    s as int,
                    x as int,
                    y as int,
                    *font,
                ) == Some(texts_of(lines@)),
                None => rows_tip(
                    *self,
                    self.row_rects@.len() as int,
                    s as int,
                    x as int,
                    y as int,
                    *font,
                ) is None,
            },
    {
        let mut marks: Vec<Mark> = Vec::new();
        let mut tip: Option<Vec<String>> = None;
        let unanswered: Option<PingOutcome> = None;
        let mut i: usize = 0;
        assert(marks_view(marks@) =~= Seq::<MarkModel>::empty());
        while i < self.row_rects.len()
            invariant
                i <= self.row_rects@.len(),
                self.wf(),
                0 <= s <= 0x1_0000,
                0 <= self.scroll,
                unanswered is None,
                places.len() < 0x4000_0000,
                forall|i: int| 0 <= i < places.len() ==> place_fits(#[trigger] places[i]),
                are_rows(
                    self.row_rects@,
                    places,
                    self.scroll as int,
                    self.servers@.len() as int,
                ),
                marks_view(marks@) == rows_marks(*self, i as int, s as int, *lang, *font),
                match tip {
                    Some(lines) => rows_tip(
                        *self,
                        i as int,
                        s as int,
                        x as int,
                        y as int,
                        *font,
                    ) == Some(texts_of(lines@)),
                    None => rows_tip(*self, i as int, s as int, x as int, y as int, *font) is None,
                },
            decreases self.row_rects@.len() - i,
        {
            let (server, rect) = self.row_rects[i];
            assert(self.row_rects@[i as int] == ((self.scroll + i) as usize, places[i as int]));
            assert(place_fits(places[i as int]));
            put_all(&mut marks, self.draw_row(i, server, rect, s, lang, font));
            let ping = if server < self.pings.len() {
                &self.pings[server]
            } else {
                &unanswered
            };
            if let Some(lines) = row_tooltip(ping, rect, s, x, y, font) {
                tip = Some(lines);
            }
            i += 1;
        }
        (marks, tip)
    }
}

} // verus!
