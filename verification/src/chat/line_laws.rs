//! Where lines break, how wide text is, how long lines show, and what completion replaces.

use vstd::prelude::*;
use crate::chat::component::SECTION;
use crate::chat::legacy::{
    all_lines, glyphs, lemma_width_concat, lemma_width_nonnegative, rendered, spec_text_width,
    tokens, visible, width, without_empty_end, wrap_width, wrapped, wrapped_lines, Font,
    Token, Wrapping,
};
use crate::chat::state::{drawn_lines, opacity, recalled, token_start, with_line, with_sent, LineModel};
use crate::chat::text_laws::lemma_tokens_shift;
use crate::text::whitespace;

verus! {

// ── Widths ────────────────────────────────────────────────────────────────

/// A character that is no section sign counts with its advance, wherever it stands in front
/// of other text; a style code counts nothing.
pub proof fn law_widths_add_up(c: char, rest: Seq<char>, font: Font)
    ensures
        c != SECTION ==> spec_text_width(seq![c] + rest, font) == font.spec_advance(c)
            + spec_text_width(rest, font),
        spec_text_width(seq![SECTION, c] + rest, font) == spec_text_width(rest, font),
        spec_text_width(Seq::empty(), font) == 0,
{
    let plain = seq![c] + rest;
    if c != SECTION {
        lemma_tokens_shift(seq![c], rest, 0, 0);
        assert(plain[0] == c);
        let t = Token { code: false, c, tag: 0 };
        assert(tokens(plain, 0) == seq![t] + tokens(rest, 0));
        lemma_width_concat(seq![t], tokens(rest, 0), font);
        assert(seq![t].drop_last() =~= Seq::<Token>::empty());
        assert(width(seq![t], font) == width(seq![t].drop_last(), font) + font.spec_advance(c));
    }
    let coded = seq![SECTION, c] + rest;
    lemma_tokens_shift(seq![SECTION, c], rest, 0, 0);
    assert(coded[0] == SECTION && coded[1] == c);
    let t = Token { code: true, c, tag: 0 };
    assert(tokens(coded, 0) == seq![t] + tokens(rest, 0));
    lemma_width_concat(seq![t], tokens(rest, 0), font);
    assert(seq![t].drop_last() =~= Seq::<Token>::empty());
    assert(width(seq![t], font) == width(seq![t].drop_last(), font));
}

/// What is visible of text: characters stay, a section sign goes together with the
/// character after it.
pub proof fn law_codes_are_stripped(c: char, rest: Seq<char>)
    ensures
        c != SECTION ==> visible(seq![c] + rest) == seq![c] + visible(rest),
        visible(seq![SECTION, c] + rest) == visible(rest),
        visible(seq![SECTION]).len() == 0,
{
    let plain = seq![c] + rest;
    if c != SECTION {
        lemma_tokens_shift(seq![c], rest, 0, 0);
        assert(plain[0] == c);
        let t = Token { code: false, c, tag: 0 };
        lemma_glyphs_first(t, tokens(rest, 0));
        assert(visible(plain) =~= seq![c] + visible(rest));
    }
    let coded = seq![SECTION, c] + rest;
    lemma_tokens_shift(seq![SECTION, c], rest, 0, 0);
    assert(coded[0] == SECTION && coded[1] == c);
    lemma_glyphs_first(Token { code: true, c, tag: 0 }, tokens(rest, 0));
    assert(tokens(seq![SECTION], 0) =~= Seq::<Token>::empty());
}

proof fn lemma_glyphs_first(t: Token, rest: Seq<Token>)
    ensures
        glyphs(seq![t] + rest) == (if t.code {
            Seq::empty()
        } else {
            seq![t]
        }) + glyphs(rest),
    decreases rest.len(),
{
    let all = seq![t] + rest;
    if rest.len() == 0 {
        assert(all.drop_last() =~= Seq::<Token>::empty());
        assert(all.last() == t);
        reveal_with_fuel(glyphs, 2);
        assert(glyphs(all) =~= (if t.code {
            Seq::empty()
        } else {
            seq![t]
        }) + glyphs(rest));
    } else {
        assert(all.drop_last() =~= seq![t] + rest.drop_last());
        assert(all.last() == rest.last());
        lemma_glyphs_first(t, rest.drop_last());
        assert(glyphs(all) =~= (if t.code {
            Seq::empty()
        } else {
            seq![t]
        }) + glyphs(rest));
    }
}

// ── Breaking ──────────────────────────────────────────────────────────────

/// Pieces that fit on one line and hold no newline.
pub open spec fn fits(pieces: Seq<Token>, max: int, font: Font) -> bool {
    &&& width(pieces, font) <= max
    &&& forall|i: int| 0 <= i < pieces.len() && !(#[trigger] pieces[i]).code ==> pieces[i].c != '\n'
}

proof fn lemma_fitting_line(pieces: Seq<Token>, n: int, max: int, font: Font)
    requires
        0 <= n <= pieces.len(),
        fits(pieces, max, font),
    ensures
        wrapped(pieces, n, max, font).lines.len() == 0,
        wrapped(pieces, n, max, font).line == pieces.take(n),
    decreases n,
{
    if n > 0 {
        lemma_fitting_line(pieces, n - 1, max, font);
        let w = wrapped(pieces, n - 1, max, font);
        let t = pieces[n - 1];
        assert(pieces.take(n) =~= pieces.take(n - 1).push(t));
        assert(pieces.take(n).drop_last() =~= pieces.take(n - 1));
        assert(pieces.take(n) + pieces.skip(n) =~= pieces);
        lemma_width_concat(pieces.take(n), pieces.skip(n), font);
        lemma_width_nonnegative(pieces.skip(n), font);
        assert(width(pieces.take(n), font) <= max);
        assert(w.line == pieces.take(n - 1));
        assert(!t.code ==> !w.too_long(font.spec_advance(t.c), max, font));
    } else {
        assert(pieces.take(0) =~= Seq::<Token>::empty());
    }
}

/// Text without a newline that fits on a line is not broken.
pub proof fn law_text_that_fits_is_one_line(text: Seq<char>, max_width: int, font: Font)
    requires
        fits(tokens(text, 0), wrap_width(max_width, font), font),
    ensures
        wrapped_lines(text, max_width, font).len() == 1,
        wrapped_lines(text, max_width, font)[0] == rendered(tokens(text, 0)),
{
    let pieces = tokens(text, 0);
    let max = wrap_width(max_width, font);
    lemma_fitting_line(pieces, pieces.len() as int, max, font);
    assert(pieces.take(pieces.len() as int) =~= pieces);
    let lines = all_lines(pieces, max, font);
    assert(lines.len() == 1);
    assert(without_empty_end(lines) == lines);
}

/// The last space glyph of a line.
pub open spec fn last_space(line: Seq<Token>, at: int) -> bool {
    &&& 0 <= at < line.len() && !line[at].code && line[at].c == ' '
    &&& forall|j: int| at < j < line.len() ==> (#[trigger] line[j]).code || line[j].c != ' '
}

/// A line without a space glyph.
pub open spec fn spaceless(line: Seq<Token>) -> bool {
    forall|j: int| 0 <= j < line.len() ==> (#[trigger] line[j]).code || line[j].c != ' '
}

/// A filled line knows its last space.
pub open spec fn knows_its_space(w: Wrapping) -> bool {
    match w.space {
        Some(at) => last_space(w.line, at),
        None => spaceless(w.line),
    }
}

proof fn lemma_next_line_spaceless(w: Wrapping)
    requires
        knows_its_space(w),
    ensures
        spaceless(w.broken_at_space().line),
        spaceless(w.broken().line),
        w.broken_at_space().space is None,
        w.broken().space is None,
{
    if let Some(at) = w.space {
        let next = w.broken_at_space();
        let p = crate::chat::legacy::color_prefix(w.color).len();
        assert forall|j: int| 0 <= j < next.line.len() implies (#[trigger] next.line[j]).code
            || next.line[j].c != ' ' by {
            if j >= p {
                assert(next.line[j] == w.line[j - p + at + 1]);
            }
        }
    }
}

proof fn lemma_wrapped_knows(pieces: Seq<Token>, n: int, max: int, font: Font)
    requires
        0 <= n <= pieces.len(),
    ensures
        knows_its_space(wrapped(pieces, n, max, font)),
    decreases n,
{
    if n > 0 {
        lemma_wrapped_knows(pieces, n - 1, max, font);
        let w = wrapped(pieces, n - 1, max, font);
        lemma_next_line_spaceless(w);
        lemma_next_line_spaceless(w.broken_at_space());
    }
}

/// A newline ends its line where it stands.
pub proof fn law_newlines_end_lines(w: Wrapping, t: Token, max: int, font: Font)
    requires
        !t.code,
        t.c == '\n',
    ensures
        w.step(t, max, font).lines == w.lines.push(w.line),
        spaceless(w.step(t, max, font).line),
        forall|i: int|
            0 <= i < w.step(t, max, font).line.len() ==> (#[trigger] w.step(t, max, font).line[i]).code,
{
}

/// A line is broken only where the next glyph does not fit: while it does, it is put at the
/// end of the line.
pub proof fn law_glyphs_that_fit_stay(w: Wrapping, t: Token, max: int, font: Font)
    requires
        !t.code,
        t.c != '\n',
        width(w.line, font) + font.spec_advance(t.c) <= max,
    ensures
        w.step(t, max, font).lines == w.lines,
        w.step(t, max, font).line == w.line.push(t),
{
}

/// A space that does not fit ends the line and is dropped.
pub proof fn law_spaces_at_the_end_are_dropped(w: Wrapping, t: Token, max: int, font: Font)
    requires
        !t.code,
        t.c == ' ',
        width(w.line, font) + font.spec_advance(t.c) > max,
        width(w.line, font) > 0,
    ensures
        w.step(t, max, font).lines == w.lines.push(w.line),
        forall|i: int|
            0 <= i < w.step(t, max, font).line.len() ==> (#[trigger] w.step(t, max, font).line[i]).code,
{
}

/// Where a glyph does not fit, the line ends before its last space, if it has one, and what
/// followed that space goes on to the next line with the glyph; without a space the line
/// ends where it is.
pub proof fn law_lines_break_at_their_last_space(
    pieces: Seq<Token>,
    n: int,
    max: int,
    font: Font,
    at: int,
)
    requires
        0 <= n < pieces.len(),
        !pieces[n].code,
        pieces[n].c != '\n',
        pieces[n].c != ' ',
        ({
            let line = wrapped(pieces, n, max, font).line;
            &&& width(line, font) > 0
            &&& width(line, font) + font.spec_advance(pieces[n].c) > max
        }),
    ensures
        ({
            let w = wrapped(pieces, n, max, font);
            let next = wrapped(pieces, n + 1, max, font);
            &&& next.lines.len() > w.lines.len()
            &&& next.line.last() == pieces[n]
            &&& last_space(w.line, at) ==> {
                let rest = w.line.skip(at + 1);
                &&& next.lines[w.lines.len() as int] == w.line.take(at)
                &&& width(rest, font) + font.spec_advance(pieces[n].c) <= max ==> next.lines.len()
                    == w.lines.len() + 1 && next.line.skip(
                    next.line.len() - 1 - rest.len(),
                ) == rest.push(pieces[n])
            }
            &&& spaceless(w.line) ==> next.lines == w.lines.push(w.line)
        }),
{
    let w = wrapped(pieces, n, max, font);
    let next = wrapped(pieces, n + 1, max, font);
    lemma_wrapped_knows(pieces, n, max, font);
    let p = crate::chat::legacy::color_prefix(w.color);
    crate::chat::legacy::lemma_prefix_width(w.color, font);
    if let Some(found) = w.space {
        let rest = w.line.skip(found + 1);
        lemma_width_concat(p, rest, font);
        if last_space(w.line, at) {
            assert(at == found);
            assert(width(rest, font) + font.spec_advance(pieces[n].c) <= max ==> next.line.skip(
                next.line.len() - 1 - rest.len(),
            ) =~= rest.push(pieces[n]));
        }
        assert(!spaceless(w.line));
    } else {
        assert(!last_space(w.line, at));
    }
}

/// Only the sixteen colors and the reset carry over to the next line.
pub proof fn law_only_colors_carry_over(w: Wrapping, t: Token, max: int, font: Font)
    requires
        t.code,
    ensures
        w.step(t, max, font).lines == w.lines,
        w.step(t, max, font).line == w.line.push(t),
        ('0' <= t.c <= '9') || ('a' <= t.c <= 'f') || ('A' <= t.c <= 'F') || t.c == 'r' || t.c
            == 'R' ==> w.step(t, max, font).color == Some(t.c),
        'g' <= t.c <= 'q' ==> w.step(t, max, font).color == w.color,
{
}

// ── Fading ────────────────────────────────────────────────────────────────

/// A line of a closed chat shows in full for nine seconds and fades away over the tenth:
/// the newest line is drawn first, with the billionths that are left of it.
pub proof fn law_lines_fade_over_their_tenth_second(lines: Seq<LineModel>, now: int)
    requires
        lines.len() > 0,
        now >= lines.last().received,
    ensures
        ({
            let drawn = drawn_lines(lines, lines.len() as int, now, false);
            let age = now - lines.last().received;
            &&& age >= 10_000_000_000 ==> drawn.len() == 0
            &&& age < 10_000_000_000 ==> drawn.len() > 0 && drawn[0].0 == lines.last().text
            &&& age <= 9_000_000_000 ==> drawn[0].1 == 1_000_000_000
            &&& 9_000_000_000 <= age < 10_000_000_000 ==> drawn[0].1 == 10_000_000_000 - age
        }),
{
}

/// Something that shows for a time is gone when it is over, fades in the last second, and
/// grows no brighter.
pub proof fn law_things_only_fade(since: int, lasts: int, now: int, later: int)
    requires
        since <= now <= later,
        lasts >= 1_000_000_000,
    ensures
        opacity(now, since, lasts) is Some <==> now - since < lasts,
        now - since <= lasts - 1_000_000_000 ==> opacity(now, since, lasts) == Some(
            1_000_000_000int,
        ),
        opacity(later, since, lasts) matches Some(b) ==> (opacity(now, since, lasts) matches Some(a)
            && 0 < b <= a <= 1_000_000_000),
{
}

/// A hundred lines are kept: one more is added at the end, and the oldest leaves once there
/// are a hundred already.
pub proof fn law_the_oldest_line_leaves(lines: Seq<LineModel>, line: LineModel)
    requires
        lines.len() <= 100,
    ensures
        lines.len() < 100 ==> with_line(lines, line) == lines.push(line),
        lines.len() == 100 ==> with_line(lines, line) == lines.skip(1).push(line),
{
    if lines.len() == 100 {
        assert(with_line(lines, line) =~= lines.skip(1).push(line));
    }
}

/// A message is recorded at the end, once where it is repeated; older ones stay.
pub proof fn law_sent_messages_are_kept_in_order(
    sent: Seq<Seq<char>>,
    message: Seq<char>,
    i: int,
)
    ensures
        0 <= i < sent.len() ==> with_sent(sent, message)[i] == sent[i],
        with_sent(sent, message).last() == message,
        sent.len() > 0 && sent.last() == message ==> with_sent(sent, message).len() == sent.len(),
        sent.len() == 0 || sent.last() != message ==> with_sent(sent, message).len() == sent.len()
            + 1,
{
}

/// A fresh line stands past the newest sent message.
pub proof fn law_fresh_lines_are_empty(sent: Seq<String>, i: int)
    ensures
        recalled(sent, sent.len() as int).len() == 0,
        0 <= i < sent.len() ==> recalled(sent, i) == sent[i]@,
{
}

/// What completion replaces is the last word: no white space in it, and white space, or
/// nothing, before it.
pub proof fn law_completion_replaces_the_last_word(text: Seq<char>, i: int)
    ensures
        0 <= token_start(text) <= text.len(),
        token_start(text) <= i < text.len() ==> !whitespace(text[i]),
        token_start(text) > 0 ==> whitespace(text[token_start(text) - 1]),
    decreases text.len(),
{
    if text.len() > 0 && !whitespace(text.last()) {
        law_completion_replaces_the_last_word(text.drop_last(), i);
    }
}

} // verus!
