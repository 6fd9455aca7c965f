//! What holds of the clickable spans: they lie on the lines that are shown, and
//! a click finds the event of the segment under it.

use vstd::prelude::*;
use crate::chat::component::{segments_text, ClickModel, SegmentModel, SECTION};
use crate::chat::legacy::{
    chars, color_prefix, lemma_width_nonnegative, rendered, tokens, tokens_from, visible, width,
    wrap_width, wrapped, wrapped_lines, Font, Token, Wrapping,
};
use crate::chat::text_laws::{
    lemma_read_back, lemma_shown_lines, lemma_untagged_glyphs, lemma_untagged_width, shown_lines,
    untagged,
};
use crate::chat::wrap::{
    event_of, glyph_rows, lemma_width_prefix, row_spans, segment_texts, spans_of, tagged_tokens,
    SpanModel,
};

verus! {

// ── Rows and lines ────────────────────────────────────────────────────────

/// A wrapping with no tags.
pub open spec fn untagged_wrapping(w: Wrapping) -> Wrapping {
    Wrapping { lines: w.lines.map_values(|line: Seq<Token>| untagged(line)), line: untagged(w.line), ..w }
}

/// The last space is on the line.
pub open spec fn space_inside(w: Wrapping) -> bool {
    w.space matches Some(at) ==> 0 <= at < w.line.len()
}

proof fn lemma_untagged_broken(w: Wrapping)
    requires
        space_inside(w),
    ensures
        untagged_wrapping(w.broken()) == untagged_wrapping(w).broken(),
        untagged_wrapping(w.broken_at_space()) == untagged_wrapping(w).broken_at_space(),
{
    let v = untagged_wrapping(w);
    assert(untagged(color_prefix(w.color)) =~= color_prefix(w.color));
    assert(untagged_wrapping(w.broken()).lines =~= v.broken().lines);
    match w.space {
        Some(at) => {
            let next = w.broken_at_space();
            assert(next.line == color_prefix(w.color) + w.line.skip(at + 1));
            lemma_untagged_parts(w.line, color_prefix(w.color), at);
            assert(untagged_wrapping(next).lines =~= v.broken_at_space().lines);
        },
        None => {},
    }
}

proof fn lemma_untagged_parts(line: Seq<Token>, prefix: Seq<Token>, at: int)
    requires
        0 <= at < line.len(),
    ensures
        untagged(line.take(at)) == untagged(line).take(at),
        untagged(prefix + line.skip(at + 1)) == untagged(prefix) + untagged(line).skip(at + 1),
{
    assert(untagged(line.take(at)) =~= untagged(line).take(at));
    assert(untagged(prefix + line.skip(at + 1)) =~= untagged(prefix) + untagged(line).skip(at + 1));
}

proof fn lemma_untagged_placed(w: Wrapping, t: Token)
    ensures
        untagged_wrapping(w.placed(t)) == untagged_wrapping(w).placed(Token { tag: 0, ..t }),
{
    assert(untagged(w.line.push(t)) =~= untagged(w.line).push(Token { tag: 0, ..t }));
}

proof fn lemma_untagged_wrapped(pieces: Seq<Token>, n: int, max: int, font: Font)
    requires
        0 <= n <= pieces.len(),
    ensures
        space_inside(wrapped(pieces, n, max, font)),
        wrapped(untagged(pieces), n, max, font) == untagged_wrapping(
            wrapped(pieces, n, max, font),
        ),
    decreases n,
{
    if n > 0 {
        lemma_untagged_wrapped(pieces, n - 1, max, font);
        let w = wrapped(pieces, n - 1, max, font);
        let t = pieces[n - 1];
        let next = w.broken_at_space();
        lemma_untagged_broken(w);
        lemma_untagged_broken(next);
        lemma_untagged_placed(w, t);
        lemma_untagged_placed(next, t);
        lemma_untagged_placed(next.broken(), t);
        lemma_untagged_width(w.line, font);
        lemma_untagged_width(next.line, font);
        assert(untagged(w.line.push(t)) =~= untagged(w.line).push(Token { tag: 0, ..t }));
    } else {
        assert(wrapped(untagged(pieces), n, max, font) =~= untagged_wrapping(
            wrapped(pieces, n, max, font),
        ));
        assert(Wrapping::start().lines =~= untagged_wrapping(Wrapping::start()).lines);
        assert(Wrapping::start().line =~= untagged_wrapping(Wrapping::start()).line);
    }
}

/// A section sign at the end of this text waits for a code.
pub open spec fn dangling(text: Seq<char>, i: int) -> bool
    decreases text.len() - i,
{
    if i < 0 || i >= text.len() {
        false
    } else if text[i] == SECTION {
        i + 1 >= text.len() || dangling(text, i + 2)
    } else {
        dangling(text, i + 1)
    }
}

proof fn lemma_tokens_concat(a: Seq<char>, b: Seq<char>, i: int)
    requires
        0 <= i <= a.len(),
        !dangling(a, i),
    ensures
        tokens_from(a + b, 0, i) == tokens_from(a, 0, i) + tokens(b, 0),
    decreases a.len() - i,
{
    if i < a.len() {
        assert((a + b)[i] == a[i]);
        if a[i] == SECTION {
            assert((a + b)[i + 1] == a[i + 1]);
            lemma_tokens_concat(a, b, i + 2);
        } else {
            lemma_tokens_concat(a, b, i + 1);
        }
        assert(tokens_from(a + b, 0, i) =~= tokens_from(a, 0, i) + tokens(b, 0));
    } else {
        crate::chat::text_laws::lemma_tokens_shift(a, b, 0, 0);
        assert(tokens_from(a, 0, i) + tokens(b, 0) =~= tokens(b, 0));
    }
}

proof fn lemma_tag_is_free(text: Seq<char>, tag: usize, i: int)
    requires
        0 <= i,
    ensures
        untagged(tokens_from(text, tag, i)) == tokens_from(text, 0, i),
    decreases text.len() - i,
{
    if i < text.len() {
        if text[i] == SECTION {
            if i + 1 < text.len() {
                lemma_tag_is_free(text, tag, i + 2);
            }
        } else {
            lemma_tag_is_free(text, tag, i + 1);
        }
    }
    assert(untagged(tokens_from(text, tag, i)) =~= tokens_from(
        text,
        0,
        i,
    ));
}

proof fn lemma_tagged_tokens(segments: Seq<SegmentModel>, n: int)
    requires
        0 <= n <= segments.len(),
        n <= usize::MAX,
        forall|k: int| 0 <= k < segments.len() ==> !dangling((#[trigger] segments[k]).text, 0),
    ensures
        untagged(tagged_tokens(segment_texts(segments), n)) == tokens(
            segments_text(segments.take(n)),
            0,
        ),
        !dangling(segments_text(segments.take(n)), 0),
    decreases n,
{
    let texts = segment_texts(segments);
    if n > 0 {
        lemma_tagged_tokens(segments, n - 1);
        let text = segments[n - 1].text;
        let tag = (n - 1) as usize;
        let before = segments_text(segments.take(n - 1));
        assert(segments.take(n).drop_last() =~= segments.take(n - 1));
        assert(segments.take(n).last() == segments[n - 1]);
        lemma_tokens_concat(before, text, 0);
        lemma_dangling_concat(before, text, 0);
        lemma_tag_is_free(text, tag, 0);
        assert(untagged(tagged_tokens(texts, n)) =~= untagged(tagged_tokens(texts, n - 1))
            + untagged(tokens(text, tag)));
    } else {
        assert(segments.take(0) =~= Seq::empty());
        assert(tokens(segments_text(segments.take(0)), 0) =~= Seq::empty());
        assert(untagged(tagged_tokens(texts, 0)) =~= Seq::empty());
    }
}

proof fn lemma_dangling_concat(a: Seq<char>, b: Seq<char>, i: int)
    requires
        0 <= i <= a.len(),
        !dangling(a, i),
        !dangling(b, 0),
    ensures
        !dangling(a + b, i),
    decreases a.len() - i,
{
    if i < a.len() {
        assert((a + b)[i] == a[i]);
        if a[i] == SECTION {
            assert((a + b)[i + 1] == a[i + 1]);
            lemma_dangling_concat(a, b, i + 2);
        } else {
            lemma_dangling_concat(a, b, i + 1);
        }
    } else {
        lemma_dangling_shift(a, b, 0);
    }
}

proof fn lemma_dangling_shift(a: Seq<char>, b: Seq<char>, i: int)
    requires
        0 <= i,
    ensures
        dangling(a + b, a.len() + i) == dangling(b, i),
    decreases b.len() - i,
{
    if i < b.len() {
        if b[i] == SECTION {
            if i + 1 < b.len() {
                lemma_dangling_shift(a, b, i + 2);
            }
        } else {
            lemma_dangling_shift(a, b, i + 1);
        }
    }
}

/// The rows that clicks are looked up in are the lines that are shown: there are as many,
/// and row by row they hold the visible characters of the wrapped lines of the segments'
/// joined text. (No segment may end in the middle of a style code.)
pub proof fn law_click_rows_are_the_shown_lines(
    segments: Seq<SegmentModel>,
    max_width: int,
    font: Font,
)
    requires
        segments.len() <= usize::MAX,
        forall|k: int| 0 <= k < segments.len() ==> !dangling((#[trigger] segments[k]).text, 0),
    ensures
        ({
            let rows = glyph_rows(segments, max_width, font);
            let lines = wrapped_lines(segments_text(segments), max_width, font);
            &&& rows.len() == lines.len()
            &&& spans_of(segments, max_width, font).len() == lines.len()
            &&& forall|i: int|
                0 <= i < lines.len() ==> visible(#[trigger] lines[i]) == chars(rows[i])
        }),
{
    let text = segments_text(segments);
    let n = segments.len() as int;
    let max = wrap_width(max_width, font);
    let b = tagged_tokens(segment_texts(segments), n);
    assert(segments.take(n) =~= segments);
    lemma_tagged_tokens(segments, n);
    assert(untagged(b) == tokens(text, 0));
    lemma_untagged_wrapped(b, b.len() as int, max, font);
    let w = wrapped(untagged(b), b.len() as int, max, font);
    let v = wrapped(b, b.len() as int, max, font);
    assert(untagged(b).len() == b.len());
    let rows = glyph_rows(segments, max_width, font);
    let lines = wrapped_lines(text, max_width, font);
    let shown = shown_lines(text, max_width, font);
    lemma_shown_lines(text, max_width, font);
    assert(w.line.len() == v.line.len());
    assert(w.lines.len() == v.lines.len());
    assert forall|i: int| 0 <= i < lines.len() implies visible(#[trigger] lines[i]) == chars(
        rows[i],
    ) by {
        assert(lines[i] == rendered(shown[i]));
        lemma_read_back(shown[i]);
        lemma_untagged_glyphs(shown[i]);
        if i < w.lines.len() {
            assert(shown[i] == w.lines[i]);
            assert(shown[i] == untagged(v.lines[i]));
            lemma_untagged_glyphs(v.lines[i]);
        } else {
            assert(shown[i] == w.line);
            lemma_untagged_glyphs(v.line);
        }
    }
}

// ── Spans and events ──────────────────────────────────────────────────────

/// Where glyph `k` of a row starts.
pub open spec fn glyph_x(row: Seq<Token>, k: int, font: Font) -> int {
    width(row.take(k), font)
}

/// Some span covers glyph `k` and fires `event`.
pub open spec fn covered(
    spans: Seq<SpanModel>,
    row: Seq<Token>,
    k: int,
    event: ClickModel,
    font: Font,
) -> bool {
    exists|s: int|
        0 <= s < spans.len() && (#[trigger] spans[s]).event == event && spans[s].x_start <= glyph_x(
            row,
            k,
            font,
        ) && glyph_x(row, k + 1, font) <= spans[s].x_end
}

/// A glyph with an event lies in a span that fires that event: a click on it
/// finds its segment's action.
pub proof fn law_clickable_glyphs_are_covered(
    row: Seq<Token>,
    n: int,
    clicks: Seq<Option<ClickModel>>,
    font: Font,
    k: int,
)
    requires
        0 <= k < n <= row.len(),
        event_of(row[k], clicks) is Some,
    ensures
        covered(row_spans(row, n, clicks, font), row, k, event_of(row[k], clicks)->0, font),
    decreases n,
{
    let spans = row_spans(row, n, clicks, font);
    let event = event_of(row[k], clicks)->0;
    lemma_spans_ordered(row, n - 1, clicks, font);
    lemma_glyph_x_grows(row, n - 1, font);
    if k == n - 1 {
        let prev = row_spans(row, n - 1, clicks, font);
        assert(spans.last().event == event);
        let last = spans.len() - 1;
        assert(spans[last].event == event);
        assert(spans[last].x_start <= glyph_x(row, k, font)) by {
            if prev.len() > 0 {
                assert(prev[prev.len() - 1].x_start <= prev[prev.len() - 1].x_end);
            }
        }
        assert(glyph_x(row, k + 1, font) <= spans[last].x_end);
    } else {
        law_clickable_glyphs_are_covered(row, n - 1, clicks, font, k);
        let prev = row_spans(row, n - 1, clicks, font);
        let s = choose|s: int|
            0 <= s < prev.len() && (#[trigger] prev[s]).event == event && prev[s].x_start
                <= glyph_x(row, k, font) && glyph_x(row, k + 1, font) <= prev[s].x_end;
        assert(spans[s].event == event);
    }
}

proof fn lemma_glyph_x_grows(row: Seq<Token>, k: int, font: Font)
    requires
        0 <= k < row.len(),
    ensures
        glyph_x(row, k, font) <= glyph_x(row, k + 1, font),
{
    lemma_width_prefix(row.take(k + 1), k, font);
    assert(row.take(k + 1).take(k) =~= row.take(k));
}

/// Spans run left to right, none beyond the glyphs seen so far.
proof fn lemma_spans_ordered(row: Seq<Token>, n: int, clicks: Seq<Option<ClickModel>>, font: Font)
    requires
        0 <= n <= row.len(),
    ensures
        forall|s: int|
            0 <= s < row_spans(row, n, clicks, font).len() ==> 0 <= (#[trigger] row_spans(
                row,
                n,
                clicks,
                font,
            )[s]).x_start <= row_spans(row, n, clicks, font)[s].x_end <= glyph_x(row, n, font),
    decreases n,
{
    if n > 0 {
        lemma_spans_ordered(row, n - 1, clicks, font);
        lemma_glyph_x_grows(row, n - 1, font);
        lemma_width_nonnegative(row.take(n - 1), font);
    }
}

/// A span covers nothing but glyphs with its event: where a span lies over a
/// glyph of some width, the glyph's segment fires the span's event.
pub proof fn law_spans_cover_only_their_event(
    row: Seq<Token>,
    n: int,
    clicks: Seq<Option<ClickModel>>,
    font: Font,
    k: int,
    s: int,
)
    requires
        0 <= k < n <= row.len(),
        0 <= s < row_spans(row, n, clicks, font).len(),
        glyph_x(row, k, font) < glyph_x(row, k + 1, font),
        row_spans(row, n, clicks, font)[s].x_start < glyph_x(row, k + 1, font),
        glyph_x(row, k, font) < row_spans(row, n, clicks, font)[s].x_end,
    ensures
        event_of(row[k], clicks) == Some(row_spans(row, n, clicks, font)[s].event),
    decreases n,
{
    let spans = row_spans(row, n, clicks, font);
    let prev = row_spans(row, n - 1, clicks, font);
    lemma_spans_ordered(row, n - 1, clicks, font);
    let x = glyph_x(row, n - 1, font);
    if k == n - 1 {
        // Only a span that reaches past the start of the last glyph can lie over it.
        if s < prev.len() && !(s == prev.len() - 1 && spans.len() == prev.len() && spans[s].x_end
            > x) {
            assert(spans[s] == prev[s]);
            assert(prev[s].x_end <= x);
        }
    } else {
        assert(glyph_x(row, k + 1, font) <= x) by {
            lemma_width_prefix(row.take(n - 1), k + 1, font);
            assert(row.take(n - 1).take(k + 1) =~= row.take(k + 1));
        }
        match event_of(row[n - 1], clicks) {
            None => {
                law_spans_cover_only_their_event(row, n - 1, clicks, font, k, s);
            },
            Some(event) => {
                if s < prev.len() {
                    assert(spans[s].x_start == prev[s].x_start);
                    assert(spans[s].event == prev[s].event);
                    assert(glyph_x(row, k, font) < prev[s].x_end);
                    law_spans_cover_only_their_event(row, n - 1, clicks, font, k, s);
                } else {
                    assert(spans[s].x_start == x);
                }
            },
        }
    }
}

} // verus!
