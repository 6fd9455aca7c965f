//! Breaking legacy-coded text into lines, and finding the clickable spans of the
//! lines.

use vstd::prelude::*;
use crate::chat::component::{ChatSegment, ClickEvent, ClickModel, SegmentModel};
use crate::chat::legacy::{
    all_lines, color_prefix, glyphs, is_color_code, lemma_wrapped_within, pieces_width, render,
    rendered, tokenize, tokens, width, without_empty_end, wrap_width, wrapped, wrapped_lines, Font,
    Token,
};
use crate::text::texts_of;

verus! {

/// The value of a list of lines.
pub open spec fn lines_view(lines: Seq<Vec<Token>>) -> Seq<Seq<Token>> {
    Seq::new(lines.len(), |i: int| lines[i]@)
}

/// A new line with the color in force.
fn start_line(color: Option<char>) -> (line: Vec<Token>)
    ensures
        line@ == color_prefix(color),
{
    let mut line: Vec<Token> = Vec::new();
    if let Some(c) = color {
        line.push(Token { code: true, c, tag: 0 });
    }
    assert(line@ =~= color_prefix(color));
    line
}

/// Break pieces into lines at most `max` wide.
pub fn wrap_tokens(pieces: &Vec<Token>, max: i32, font: &Font) -> (lines: Vec<Vec<Token>>)
    requires
        max >= 0,
    ensures
        lines_view(lines@) == all_lines(pieces@, max as int, *font),
{
    let mut lines: Vec<Vec<Token>> = Vec::new();
    let mut line: Vec<Token> = Vec::new();
    let mut line_width: i64 = 0;
    let mut space: Option<usize> = None;
    let mut color: Option<char> = None;
    let mut i: usize = 0;
    let ghost limit: int = if max < 65535 {
        65535
    } else {
        max as int
    };
    assert(lines_view(lines@) =~= Seq::empty());
    while i < pieces.len()
        invariant
            max >= 0,
            i <= pieces@.len(),
            limit == (if max < 65535 { 65535int } else { max as int }),
            lines_view(lines@) == wrapped(pieces@, i as int, max as int, *font).lines,
            line@ == wrapped(pieces@, i as int, max as int, *font).line,
            line_width == width(line@, *font),
            0 <= line_width <= limit,
            color == wrapped(pieces@, i as int, max as int, *font).color,
            match (space, wrapped(pieces@, i as int, max as int, *font).space) {
                (Some(s), Some(t)) => s == t,
                (None, None) => true,
                _ => false,
            },
        decreases pieces@.len() - i,
    {
        let ghost w = wrapped(pieces@, i as int, max as int, *font);
        let ghost before = lines_view(lines@);
        let t = pieces[i];
        proof {
            lemma_wrapped_within(pieces@, i as int, max as int, limit, *font);
            lemma_wrapped_within(pieces@, i + 1, max as int, limit, *font);
            assert(w.line.push(t).drop_last() =~= w.line);
        }
        let ghost now = w.step(t, max as int, *font);
        if t.code {
            line.push(t);
            if is_color_code(t.c) || t.c == 'r' || t.c == 'R' {
                color = Some(t.c);
            }
        } else if t.c == '\n' {
            lines.push(line);
            assert(lines_view(lines@) =~= before.push(w.line));
            line = start_line(color);
            line_width = 0;
            space = None;
        } else {
            let advance: i64 = font.char_width(t.c) as i64;
            if line_width + advance > max as i64 && line_width > 0 {
                if t.c == ' ' {
                    lines.push(line);
                    assert(lines_view(lines@) =~= before.push(w.line));
                    line = start_line(color);
                    line_width = 0;
                    space = None;
                } else {
                    let ghost next = w.broken_at_space();
                    proof {
                        crate::chat::legacy::lemma_broken_at_space_within(w, limit, *font);
                        crate::chat::legacy::lemma_width_nonnegative(next.line, *font);
                        crate::chat::legacy::lemma_broken_within(next, limit, *font);
                        assert(next.line.push(t).drop_last() =~= next.line);
                        assert(next.broken().line.push(t).drop_last() =~= next.broken().line);
                    }
                    let mut fresh = start_line(color);
                    match space {
                        Some(at) => {
                            let mut rest = line.split_off(at);
                            rest.remove(0);
                            assert(line@ =~= w.line.take(at as int));
                            assert(rest@ =~= w.line.skip(at + 1));
                            fresh.append(&mut rest);
                        },
                        None => {},
                    }
                    lines.push(line);
                    assert(lines_view(lines@) =~= next.lines);
                    assert(fresh@ =~= next.line);
                    line = fresh;
                    line_width = pieces_width(&line, font) as i64;
                    space = None;
                    if line_width + advance > max as i64 && line_width > 0 {
                        let ghost shown = lines_view(lines@);
                        lines.push(line);
                        assert(lines_view(lines@) =~= shown.push(next.line));
                        line = start_line(color);
                        line_width = 0;
                    }
                    line.push(t);
                    line_width = line_width + advance;
                }
            } else {
                if t.c == ' ' {
                    space = Some(line.len());
                }
                line.push(t);
                line_width = line_width + advance;
            }
        }
        proof {
            assert(lines_view(lines@) =~= now.lines);
            assert(line@ =~= now.line);
            crate::chat::legacy::lemma_prefix_width(w.color, *font);
            crate::chat::legacy::lemma_width_nonnegative(line@, *font);
            assert(line_width == width(line@, *font));
        }
        i += 1;
    }
    let ghost before = lines_view(lines@);
    lines.push(line);
    assert(lines_view(lines@) =~= before.push(line@));
    lines
}

/// The width that lines may have.
fn line_limit(max_width: i32, font: &Font) -> (max: i32)
    ensures
        max == wrap_width(max_width as int, *font),
        max >= 0,
{
    let least = font.char_width('W');
    if max_width < least {
        least
    } else {
        max_width
    }
}

/// Break pieces into the lines that are shown.
fn shown_rows(pieces: &Vec<Token>, max: i32, font: &Font) -> (rows: Vec<Vec<Token>>)
    requires
        max >= 0,
    ensures
        lines_view(rows@) == without_empty_end(all_lines(pieces@, max as int, *font)),
{
    let mut rows = wrap_tokens(pieces, max, font);
    let ghost all = lines_view(rows@);
    let n = rows.len();
    assert(all.len() == n && n > 0);
    assert(all.last() == rows@[n - 1]@);
    if rows[n - 1].len() == 0 && n > 1 {
        rows.pop();
        assert(lines_view(rows@) =~= all.drop_last());
    }
    rows
}

/// Greedy word-wrap of legacy-coded text to at most `max_width` px per line, or
/// one `W` where that is wider. Continuation lines repeat the color in force, so
/// colors survive the break.
pub fn wrap_legacy(text: &str, max_width: i32, font: &Font) -> (lines: Vec<String>)
    ensures
        texts_of(lines@) == wrapped_lines(text@, max_width as int, *font),
{
    let max = line_limit(max_width, font);
    let pieces = tokenize(text, 0);
    let rows = shown_rows(&pieces, max, font);
    let ghost shown = lines_view(rows@);
    let mut out: Vec<String> = Vec::new();
    let mut i: usize = 0;
    while i < rows.len()
        invariant
            i <= rows@.len(),
            shown == lines_view(rows@),
            out@.len() == i,
            forall|j: int| 0 <= j < i ==> (#[trigger] out@[j])@ == rendered(shown[j]),
        decreases rows@.len() - i,
    {
        let text_line = render(&rows[i]);
        out.push(text_line);
        i += 1;
    }
    assert(texts_of(out@) =~= wrapped_lines(text@, max_width as int, *font));
    out
}

// ── Clickable spans ───────────────────────────────────────────────────────

/// A clickable horizontal span on one row: the x range (in px, relative to the
/// row's text start) and the click event to fire.
#[derive(Debug)]
pub struct ClickSpan {
    pub x_start: i32,
    pub x_end: i32,
    pub event: ClickEvent,
}

/// The mathematical value of a [`ClickSpan`].
pub struct SpanModel {
    pub x_start: int,
    pub x_end: int,
    pub event: ClickModel,
}

impl View for ClickSpan {
    type V = SpanModel;

    open spec fn view(&self) -> SpanModel {
        SpanModel { x_start: self.x_start as int, x_end: self.x_end as int, event: self.event@ }
    }
}

pub open spec fn spans_view(spans: Seq<ClickSpan>) -> Seq<SpanModel> {
    Seq::new(spans.len(), |i: int| spans[i]@)
}

pub open spec fn rows_view(rows: Seq<Vec<ClickSpan>>) -> Seq<Seq<SpanModel>> {
    Seq::new(rows.len(), |i: int| spans_view(rows[i]@))
}

/// The pieces of segments, each tagged with its segment, up to the `n`-th segment.
pub open spec fn tagged_tokens(texts: Seq<Seq<char>>, n: int) -> Seq<Token>
    decreases n,
{
    if n <= 0 {
        Seq::empty()
    } else {
        tagged_tokens(texts, n - 1) + tokens(texts[n - 1], (n - 1) as usize)
    }
}

/// The event under a glyph: that of its segment.
pub open spec fn event_of(t: Token, clicks: Seq<Option<ClickModel>>) -> Option<ClickModel> {
    if t.tag < clicks.len() {
        clicks[t.tag as int]
    } else {
        None
    }
}

/// The spans of the first `n` glyphs of a row. A glyph extends the span before it
/// when that ends where the glyph starts and fires the same event.
pub open spec fn row_spans(
    row: Seq<Token>,
    n: int,
    clicks: Seq<Option<ClickModel>>,
    font: Font,
) -> Seq<SpanModel>
    decreases n,
{
    if n <= 0 {
        Seq::empty()
    } else {
        let spans = row_spans(row, n - 1, clicks, font);
        let x = width(row.take(n - 1), font);
        let end = width(row.take(n), font);
        match event_of(row[n - 1], clicks) {
            None => spans,
            Some(event) => if spans.len() > 0 && spans.last().x_end == x && spans.last().event
                == event {
                spans.drop_last().push(SpanModel { x_end: end, ..spans.last() })
            } else {
                spans.push(SpanModel { x_start: x, x_end: end, event })
            },
        }
    }
}

pub open spec fn segment_texts(segments: Seq<SegmentModel>) -> Seq<Seq<char>> {
    Seq::new(segments.len(), |i: int| segments[i].text)
}

pub open spec fn segment_clicks(segments: Seq<SegmentModel>) -> Seq<Option<ClickModel>> {
    Seq::new(segments.len(), |i: int| segments[i].click)
}

/// The lines that segments are broken into and that are shown.
pub open spec fn segment_lines(segments: Seq<SegmentModel>, max_width: int, font: Font) -> Seq<
    Seq<Token>,
> {
    without_empty_end(
        all_lines(
            tagged_tokens(segment_texts(segments), segments.len() as int),
            wrap_width(max_width, font),
            font,
        ),
    )
}

/// The rows of glyphs that segments are laid out in: those of the lines that are shown.
pub open spec fn glyph_rows(segments: Seq<SegmentModel>, max_width: int, font: Font) -> Seq<
    Seq<Token>,
> {
    let lines = segment_lines(segments, max_width, font);
    Seq::new(lines.len(), |i: int| glyphs(lines[i]))
}

/// Per row, its clickable spans.
pub open spec fn spans_of(segments: Seq<SegmentModel>, max_width: int, font: Font) -> Seq<
    Seq<SpanModel>,
> {
    let rows = glyph_rows(segments, max_width, font);
    Seq::new(
        rows.len(),
        |i: int| row_spans(rows[i], rows[i].len() as int, segment_clicks(segments), font),
    )
}

pub proof fn lemma_width_prefix(row: Seq<Token>, n: int, font: Font)
    requires
        0 <= n <= row.len(),
    ensures
        0 <= width(row.take(n), font) <= width(row, font),
{
    crate::chat::legacy::lemma_width_concat(row.take(n), row.skip(n), font);
    crate::chat::legacy::lemma_width_nonnegative(row.take(n), font);
    crate::chat::legacy::lemma_width_nonnegative(row.skip(n), font);
    assert(row.take(n) + row.skip(n) =~= row);
}

/// The clickable spans of one row of glyphs.
fn spans_in_row(row: &Vec<Token>, segments: &Vec<ChatSegment>, font: &Font) -> (spans: Vec<
    ClickSpan,
>)
    requires
        width(row@, *font) <= i32::MAX,
        forall|i: int| 0 <= i < row@.len() ==> !(#[trigger] row@[i]).code,
    ensures
        spans_view(spans@) == row_spans(
            row@,
            row@.len() as int,
            segment_clicks(crate::chat::component::segments_view(segments@)),
            *font,
        ),
{
    let ghost clicks = segment_clicks(crate::chat::component::segments_view(segments@));
    let mut spans: Vec<ClickSpan> = Vec::new();
    let mut x: i32 = 0;
    let mut k: usize = 0;
    assert(spans_view(spans@) =~= Seq::empty());
    while k < row.len()
        invariant
            k <= row@.len(),
            width(row@, *font) <= i32::MAX,
            forall|i: int| 0 <= i < row@.len() ==> !(#[trigger] row@[i]).code,
            clicks == segment_clicks(crate::chat::component::segments_view(segments@)),
            x == width(row@.take(k as int), *font),
            spans_view(spans@) == row_spans(row@, k as int, clicks, *font),
        decreases row@.len() - k,
    {
        let ghost before = spans_view(spans@);
        let t = row[k];
        let advance = font.char_width(t.c);
        proof {
            assert(row@.take(k + 1).drop_last() =~= row@.take(k as int));
            assert(!row@[k as int].code);
            lemma_width_prefix(row@, k + 1, *font);
        }
        let end: i32 = x + advance;
        if t.tag < segments.len() {
            if let Some(event) = &segments[t.tag].click {
                let n = spans.len();
                let extends = n > 0 && spans[n - 1].x_end == x && spans[n - 1].event == *event;
                if extends {
                    let last = spans.pop();
                    if let Some(span) = last {
                        assert(before.last() == span@);
                        spans.push(ClickSpan { x_start: span.x_start, x_end: end, event: span.event });
                        assert(spans_view(spans@) =~= before.drop_last().push(
                            SpanModel { x_end: end as int, ..before.last() },
                        ));
                    }
                } else {
                    spans.push(ClickSpan { x_start: x, x_end: end, event: event.clone() });
                    assert(spans_view(spans@) =~= before.push(
                        SpanModel { x_start: x as int, x_end: end as int, event: event@ },
                    ));
                }
            }
        }
        x = end;
        k += 1;
    }
    assert(row@.take(k as int) =~= row@);
    spans
}

/// Lay segments out with the same word-wrap as [`wrap_legacy`] and return, per
/// row (first row topmost), the clickable spans.
pub fn clickable_spans(segments: &Vec<ChatSegment>, max_width: i32, font: &Font) -> (rows: Vec<
    Vec<ClickSpan>,
>)
    ensures
        rows_view(rows@) == spans_of(
            crate::chat::component::segments_view(segments@),
            max_width as int,
            *font,
        ),
{
    let ghost models = crate::chat::component::segments_view(segments@);
    let ghost texts = segment_texts(models);
    let max = line_limit(max_width, font);
    let mut all: Vec<Token> = Vec::new();
    let mut seg: usize = 0;
    while seg < segments.len()
        invariant
            seg <= segments@.len(),
            models == crate::chat::component::segments_view(segments@),
            texts == segment_texts(models),
            all@ == tagged_tokens(texts, seg as int),
        decreases segments@.len() - seg,
    {
        let mut pieces = tokenize(segments[seg].text.as_str(), seg);
        all.append(&mut pieces);
        seg += 1;
    }
    let rows = shown_rows(&all, max, font);
    let ghost limit: int = if max < 65535 {
        65535
    } else {
        max as int
    };
    let ghost lines = lines_view(rows@);
    proof {
        let n = all@.len() as int;
        lemma_wrapped_within(all@, n, max as int, limit, *font);
        let w = wrapped(all@, n, max as int, *font);
        let whole = all_lines(all@, max as int, *font);
        assert(whole == w.lines.push(w.line));
        assert(lines == without_empty_end(whole) && lines.len() == rows@.len());
        assert(forall|i: int| 0 <= i < lines.len() ==> i < whole.len() && lines[i] == whole[i]);
        assert forall|i: int| 0 <= i < rows@.len() implies width(#[trigger] rows@[i]@, *font)
            <= i32::MAX by {
            assert(lines[i] == rows@[i]@);
            assert(lines[i] == whole[i]);
            if i < w.lines.len() {
                assert(lines[i] == w.lines[i]);
            } else {
                assert(lines[i] == w.line);
            }
        }
    }
    let mut out: Vec<Vec<ClickSpan>> = Vec::new();
    let mut r: usize = 0;
    while r < rows.len()
        invariant
            r <= rows@.len(),
            models == crate::chat::component::segments_view(segments@),
            forall|i: int| 0 <= i < rows@.len() ==> width(#[trigger] rows@[i]@, *font) <= i32::MAX,
            out@.len() == r,
            forall|i: int|
                0 <= i < r ==> spans_view((#[trigger] out@[i])@) == row_spans(
                    glyphs(rows@[i]@),
                    glyphs(rows@[i]@).len() as int,
                    segment_clicks(models),
                    *font,
                ),
        decreases rows@.len() - r,
    {
        assert(width(rows@[r as int]@, *font) <= i32::MAX);
        let row = only_glyphs(&rows[r]);
        proof {
            lemma_glyphs_width(rows@[r as int]@, *font);
        }
        let spans = spans_in_row(&row, segments, font);
        out.push(spans);
        r += 1;
    }
    proof {
        let want = spans_of(models, max_width as int, *font);
        assert(segment_lines(models, max_width as int, *font) == lines);
        assert forall|i: int| 0 <= i < lines.len() implies rows_view(out@)[i] == want[i] by {
            assert(lines[i] == rows@[i]@);
            assert(glyph_rows(models, max_width as int, *font)[i] == glyphs(rows@[i]@));
            assert(spans_view(out@[i]@) == row_spans(
                glyphs(rows@[i]@),
                glyphs(rows@[i]@).len() as int,
                segment_clicks(models),
                *font,
            ));
        }
        assert(rows_view(out@) =~= want);
    }
    out
}

/// The glyphs of a line.
fn only_glyphs(line: &Vec<Token>) -> (row: Vec<Token>)
    ensures
        row@ == glyphs(line@),
        forall|i: int| 0 <= i < row@.len() ==> !(#[trigger] row@[i]).code,
{
    let mut row: Vec<Token> = Vec::new();
    let mut i: usize = 0;
    while i < line.len()
        invariant
            i <= line@.len(),
            row@ == glyphs(line@.take(i as int)),
            forall|j: int| 0 <= j < row@.len() ==> !(#[trigger] row@[j]).code,
        decreases line@.len() - i,
    {
        if !line[i].code {
            row.push(line[i]);
        }
        i += 1;
        assert(line@.take(i as int).drop_last() =~= line@.take(i - 1));
    }
    assert(line@.take(i as int) =~= line@);
    row
}

/// Codes have no width.
proof fn lemma_glyphs_width(pieces: Seq<Token>, font: Font)
    ensures
        width(glyphs(pieces), font) == width(pieces, font),
    decreases pieces.len(),
{
    if pieces.len() > 0 {
        lemma_glyphs_width(pieces.drop_last(), font);
        if !pieces.last().code {
            assert(glyphs(pieces).drop_last() =~= glyphs(pieces.drop_last()));
        }
    }
}

} // verus!
