//! What holds of stripped and wrapped text.

use vstd::prelude::*;
use crate::chat::component::SECTION;
use crate::chat::legacy::{
    all_lines, chars, color_prefix, glyphs, lemma_wrapped_within, rendered, spec_text_width, tokens,
    tokens_from, visible, width, without_empty_end, wrap_width, wrapped, wrapped_lines, Font, Token, Wrapping,
};

verus! {

// ── Reading rendered pieces back ──────────────────────────────────────────

/// The same pieces with no tags.
pub open spec fn untagged(pieces: Seq<Token>) -> Seq<Token> {
    Seq::new(pieces.len(), |i: int| Token { tag: 0, ..pieces[i] })
}

/// No glyph is a section sign.
pub open spec fn proper(pieces: Seq<Token>) -> bool {
    forall|i: int| 0 <= i < pieces.len() && !(#[trigger] pieces[i]).code ==> pieces[i].c != SECTION
}

pub proof fn lemma_tokens_shift(a: Seq<char>, b: Seq<char>, tag: usize, i: int)
    requires
        0 <= i,
    ensures
        tokens_from(a + b, tag, a.len() + i) == tokens_from(b, tag, i),
    decreases b.len() - i,
{
    if i < b.len() {
        if b[i] == SECTION {
            if i + 1 < b.len() {
                lemma_tokens_shift(a, b, tag, i + 2);
            }
        } else {
            lemma_tokens_shift(a, b, tag, i + 1);
        }
    }
}

proof fn lemma_tokens_of_rendered(pieces: Seq<Token>, rest: Seq<char>)
    requires
        proper(pieces),
    ensures
        tokens(rendered(pieces) + rest, 0) == untagged(pieces) + tokens(rest, 0),
    decreases pieces.len(),
{
    if pieces.len() == 0 {
        assert(rendered(pieces) + rest =~= rest);
        assert(untagged(pieces) + tokens(rest, 0) =~= tokens(rest, 0));
    } else {
        let init = pieces.drop_last();
        let last = pieces.last();
        assert(!last.code ==> pieces[pieces.len() - 1].c != SECTION);
        assert forall|i: int| 0 <= i < init.len() && !(#[trigger] init[i]).code implies init[i].c
            != SECTION by {
            assert(pieces[i] == init[i]);
        }
        let own = if last.code {
            seq![SECTION, last.c]
        } else {
            seq![last.c]
        };
        assert(rendered(pieces) + rest =~= rendered(init) + (own + rest));
        lemma_tokens_of_rendered(init, own + rest);
        lemma_tokens_shift(own, rest, 0, 0);
        let tail = own + rest;
        assert(tokens(tail, 0) =~= seq![Token { tag: 0, ..last }] + tokens(rest, 0)) by {
            if last.code {
                assert(tail[0] == SECTION && tail[1] == last.c && tail.len() >= 2);
                assert(tokens_from(tail, 0, 0) == seq![
                    Token { code: true, c: tail[1], tag: 0 },
                ] + tokens_from(tail, 0, 2));
            } else {
                assert(tail[0] == last.c && tail.len() >= 1);
                assert(tokens_from(tail, 0, 0) == seq![
                    Token { code: false, c: tail[0], tag: 0 },
                ] + tokens_from(tail, 0, 1));
            }
        }
        assert(untagged(init) + (seq![Token { tag: 0, ..last }] + tokens(rest, 0)) =~= untagged(
            pieces,
        ) + tokens(rest, 0));
    }
}

/// Rendering pieces and reading the text back gives the same pieces.
pub proof fn lemma_read_back(pieces: Seq<Token>)
    requires
        proper(pieces),
    ensures
        tokens(rendered(pieces), 0) == untagged(pieces),
{
    lemma_tokens_of_rendered(pieces, Seq::empty());
    assert(rendered(pieces) + Seq::<char>::empty() =~= rendered(pieces));
    assert(untagged(pieces) + tokens(Seq::empty(), 0) =~= untagged(pieces));
}

pub proof fn lemma_tokens_proper(text: Seq<char>, tag: usize, i: int)
    requires
        0 <= i,
    ensures
        proper(tokens_from(text, tag, i)),
    decreases text.len() - i,
{
    if i < text.len() {
        if text[i] == SECTION {
            if i + 1 < text.len() {
                lemma_tokens_proper(text, tag, i + 2);
            }
        } else {
            lemma_tokens_proper(text, tag, i + 1);
        }
    }
}

pub proof fn lemma_untagged_width(pieces: Seq<Token>, font: Font)
    ensures
        width(untagged(pieces), font) == width(pieces, font),
    decreases pieces.len(),
{
    if pieces.len() > 0 {
        lemma_untagged_width(pieces.drop_last(), font);
        assert(untagged(pieces).drop_last() =~= untagged(pieces.drop_last()));
    }
}

pub proof fn lemma_untagged_glyphs(pieces: Seq<Token>)
    ensures
        chars(glyphs(untagged(pieces))) == chars(glyphs(pieces)),
    decreases pieces.len(),
{
    if pieces.len() > 0 {
        lemma_untagged_glyphs(pieces.drop_last());
        assert(untagged(pieces).drop_last() =~= untagged(pieces.drop_last()));
        let a = glyphs(untagged(pieces.drop_last()));
        let b = glyphs(pieces.drop_last());
        assert(chars(a).len() == a.len() && chars(b).len() == b.len());
        assert forall|i: int| 0 <= i < a.len() implies a[i].c == b[i].c by {
            assert(chars(a)[i] == chars(b)[i]);
        }
        assert(chars(glyphs(untagged(pieces))) =~= chars(glyphs(pieces)));
    } else {
        assert(untagged(pieces) =~= pieces);
    }
}

// ── Stripping ─────────────────────────────────────────────────────────────

pub proof fn lemma_glyphs_plain(pieces: Seq<Token>)
    ensures
        forall|i: int| 0 <= i < glyphs(pieces).len() ==> !(#[trigger] glyphs(pieces)[i]).code,
        proper(pieces) ==> proper(glyphs(pieces)),
        (forall|i: int| 0 <= i < pieces.len() ==> !(#[trigger] pieces[i]).code) ==> glyphs(pieces)
            == pieces,
    decreases pieces.len(),
{
    if pieces.len() > 0 {
        let init = pieces.drop_last();
        lemma_glyphs_plain(init);
        if proper(pieces) {
            assert forall|i: int| 0 <= i < init.len() && !(#[trigger] init[i]).code implies init[i].c
                != SECTION by {
                assert(pieces[i] == init[i]);
            }
            assert(!pieces.last().code ==> pieces[pieces.len() - 1].c != SECTION);
        }
        if forall|i: int| 0 <= i < pieces.len() ==> !(#[trigger] pieces[i]).code {
            assert forall|i: int| 0 <= i < init.len() implies !(#[trigger] init[i]).code by {
                assert(pieces[i] == init[i]);
            }
            assert(!pieces[pieces.len() - 1].code);
            assert(glyphs(pieces) =~= pieces);
        }
    } else {
        assert(glyphs(pieces) =~= pieces);
    }
}

proof fn lemma_rendered_glyphs(pieces: Seq<Token>)
    requires
        forall|i: int| 0 <= i < pieces.len() ==> !(#[trigger] pieces[i]).code,
    ensures
        rendered(pieces) == chars(pieces),
    decreases pieces.len(),
{
    if pieces.len() > 0 {
        let init = pieces.drop_last();
        assert forall|i: int| 0 <= i < init.len() implies !(#[trigger] init[i]).code by {
            assert(pieces[i] == init[i]);
        }
        assert(!pieces[pieces.len() - 1].code);
        lemma_rendered_glyphs(init);
        assert(rendered(pieces) =~= chars(pieces));
    } else {
        assert(rendered(pieces) =~= chars(pieces));
    }
}

/// Stripped text has no section sign, and stripping it again changes nothing.
pub proof fn law_stripping_is_idempotent(text: Seq<char>)
    ensures
        forall|i: int| 0 <= i < visible(text).len() ==> #[trigger] visible(text)[i] != SECTION,
        visible(visible(text)) == visible(text),
{
    let pieces = tokens(text, 0);
    lemma_tokens_proper(text, 0, 0);
    lemma_glyphs_plain(pieces);
    let g = glyphs(pieces);
    assert forall|i: int| 0 <= i < visible(text).len() implies #[trigger] visible(text)[i]
        != SECTION by {
        assert(!g[i].code);
    }
    lemma_rendered_glyphs(g);
    lemma_read_back(g);
    lemma_untagged_glyphs(g);
    lemma_glyphs_plain(g);
}

// ── Wrapping ──────────────────────────────────────────────────────────────

/// Everything the machine holds: finished lines, then the line being filled.
pub open spec fn held_pieces(w: Wrapping) -> Seq<Seq<Token>> {
    w.lines.push(w.line)
}

/// Each line is proper, and a remembered space is a space.
pub open spec fn sound(w: Wrapping) -> bool {
    &&& forall|i: int| 0 <= i < w.lines.len() ==> proper(#[trigger] w.lines[i])
    &&& proper(w.line)
    &&& w.space matches Some(at) ==> 0 <= at < w.line.len() && !w.line[at].code && w.line[at].c
        == ' '
}

pub proof fn lemma_broken_at_space_sound(w: Wrapping)
    requires
        sound(w),
    ensures
        sound(w.broken_at_space()),
{
    let next = w.broken_at_space();
    match w.space {
        Some(at) => {
            assert forall|i: int|
                0 <= i < next.line.len() && !(#[trigger] next.line[i]).code implies next.line[i].c
                != SECTION by {
                let p = color_prefix(w.color).len();
                assert(i >= p);
                assert(next.line[i] == w.line[i - p + at + 1]);
            }
            assert forall|i: int|
                0 <= i < w.line.take(at).len() && !(#[trigger] w.line.take(at)[i]).code implies w.line.take(
                at,
            )[i].c != SECTION by {
                assert(w.line.take(at)[i] == w.line[i]);
            }
        },
        None => {},
    }
}

pub proof fn lemma_step_sound(w: Wrapping, t: Token, max: int, font: Font)
    requires
        sound(w),
        !t.code ==> t.c != SECTION,
    ensures
        sound(w.step(t, max, font)),
{
    lemma_broken_at_space_sound(w);
    assert(sound(w.broken()));
    assert(sound(w.broken_at_space().broken()));
}

proof fn lemma_wrapped_sound(pieces: Seq<Token>, n: int, max: int, font: Font)
    requires
        0 <= n <= pieces.len(),
        proper(pieces),
    ensures
        sound(wrapped(pieces, n, max, font)),
    decreases n,
{
    if n > 0 {
        lemma_wrapped_sound(pieces, n - 1, max, font);
        assert(!pieces[n - 1].code ==> pieces[n - 1].c != SECTION);
        lemma_step_sound(wrapped(pieces, n - 1, max, font), pieces[n - 1], max, font);
    }
}

/// The lines that [`wrapped_lines`] shows, as pieces.
pub open spec fn shown_lines(text: Seq<char>, max_width: int, font: Font) -> Seq<Seq<Token>> {
    without_empty_end(all_lines(tokens(text, 0), wrap_width(max_width, font), font))
}

pub proof fn lemma_shown_lines(text: Seq<char>, max_width: int, font: Font)
    ensures
        wrapped_lines(text, max_width, font).len() == shown_lines(text, max_width, font).len(),
        forall|i: int|
            0 <= i < wrapped_lines(text, max_width, font).len() ==> (#[trigger] wrapped_lines(
                text,
                max_width,
                font,
            )[i]) == rendered(shown_lines(text, max_width, font)[i]) && proper(
                shown_lines(text, max_width, font)[i],
            ),
{
    let pieces = tokens(text, 0);
    lemma_tokens_proper(text, 0, 0);
    lemma_wrapped_sound(pieces, pieces.len() as int, wrap_width(max_width, font), font);
}

/// No wrapped line is wider than the width asked for, when no glyph of the text
/// is wider than that by itself. (The width asked for counts as one `W` where it
/// is less.)
pub proof fn law_wrapped_lines_fit(text: Seq<char>, max_width: int, font: Font)
    requires
        forall|i: int|
            0 <= i < visible(text).len() ==> font.spec_advance(#[trigger] visible(text)[i])
                <= wrap_width(max_width, font),
    ensures
        forall|i: int|
            0 <= i < wrapped_lines(text, max_width, font).len() ==> spec_text_width(
                #[trigger] wrapped_lines(text, max_width, font)[i],
                font,
            ) <= wrap_width(max_width, font),
{
    let pieces = tokens(text, 0);
    let max = wrap_width(max_width, font);
    assert forall|i: int| 0 <= i < pieces.len() && !(#[trigger] pieces[i]).code implies font.spec_advance(
        pieces[i].c,
    ) <= max by {
        lemma_glyph_is_visible(pieces, i);
        let j = choose|j: int|
            0 <= j < glyphs(pieces).len() && #[trigger] glyphs(pieces)[j] == pieces[i];
        assert(visible(text)[j] == pieces[i].c);
    }
    lemma_wrapped_within(pieces, pieces.len() as int, max, max, font);
    lemma_shown_lines(text, max_width, font);
    let shown = shown_lines(text, max_width, font);
    let w = wrapped(pieces, pieces.len() as int, max, font);
    assert forall|i: int| 0 <= i < wrapped_lines(text, max_width, font).len() implies spec_text_width(
        #[trigger] wrapped_lines(text, max_width, font)[i],
        font,
    ) <= max by {
        assert(wrapped_lines(text, max_width, font)[i] == rendered(shown[i]));
        lemma_read_back(shown[i]);
        lemma_untagged_width(shown[i], font);
        if i < w.lines.len() {
            assert(shown[i] == w.lines[i]);
        } else {
            assert(shown[i] == w.line);
        }
    }
}

proof fn lemma_glyph_is_visible(pieces: Seq<Token>, i: int)
    requires
        0 <= i < pieces.len(),
        !pieces[i].code,
    ensures
        exists|j: int| 0 <= j < glyphs(pieces).len() && #[trigger] glyphs(pieces)[j] == pieces[i],
    decreases pieces.len(),
{
    let init = pieces.drop_last();
    if i < pieces.len() - 1 {
        assert(init[i] == pieces[i]);
        lemma_glyph_is_visible(init, i);
        let j = choose|j: int| 0 <= j < glyphs(init).len() && #[trigger] glyphs(init)[j] == init[i];
        assert(glyphs(pieces)[j] == pieces[i]);
    } else {
        assert(glyphs(pieces)[glyphs(init).len() as int] == pieces[i]);
    }
}

/// The characters that leave a mark: visible, neither space nor newline.
pub open spec fn ink(pieces: Seq<Token>) -> Seq<char>
    decreases pieces.len(),
{
    if pieces.len() == 0 {
        Seq::empty()
    } else if pieces.last().code || pieces.last().c == ' ' || pieces.last().c == '\n' {
        ink(pieces.drop_last())
    } else {
        ink(pieces.drop_last()).push(pieces.last().c)
    }
}

/// The marks on lines, one line after the other.
pub open spec fn ink_of_lines(lines: Seq<Seq<Token>>) -> Seq<char>
    decreases lines.len(),
{
    if lines.len() == 0 {
        Seq::empty()
    } else {
        ink_of_lines(lines.drop_last()) + ink(lines.last())
    }
}

proof fn lemma_ink_concat(a: Seq<Token>, b: Seq<Token>)
    ensures
        ink(a + b) == ink(a) + ink(b),
    decreases b.len(),
{
    if b.len() == 0 {
        assert(a + b =~= a);
        assert(ink(a) + ink(b) =~= ink(a));
    } else {
        assert((a + b).drop_last() =~= a + b.drop_last());
        lemma_ink_concat(a, b.drop_last());
        assert(ink(a + b) =~= ink(a) + ink(b));
    }
}

proof fn lemma_prefix_ink(color: Option<char>)
    ensures
        ink(color_prefix(color)) == Seq::<char>::empty(),
{
    let one = color_prefix(color);
    match color {
        Some(c) => {
            assert(one.drop_last() =~= Seq::empty());
            assert(ink(one.drop_last()) =~= Seq::empty());
        },
        None => {},
    }
    assert(ink(one) =~= Seq::empty());
}

proof fn lemma_ink_push(lines: Seq<Seq<Token>>, line: Seq<Token>)
    ensures
        ink_of_lines(lines.push(line)) == ink_of_lines(lines) + ink(line),
{
    assert(lines.push(line).drop_last() =~= lines);
}

proof fn lemma_broken_ink(w: Wrapping)
    ensures
        ink_of_lines(held_pieces(w.broken())) == ink_of_lines(held_pieces(w)),
{
    lemma_prefix_ink(w.color);
    lemma_ink_push(w.lines, w.line);
    lemma_ink_push(w.lines.push(w.line), color_prefix(w.color));
    assert(ink_of_lines(held_pieces(w)) + Seq::<char>::empty() =~= ink_of_lines(held_pieces(w)));
}

proof fn lemma_broken_at_space_ink(w: Wrapping)
    requires
        sound(w),
    ensures
        ink_of_lines(held_pieces(w.broken_at_space())) == ink_of_lines(held_pieces(w)),
{
    match w.space {
        Some(at) => {
            let head = w.line.take(at);
            let gap = w.line.subrange(at, at + 1);
            let rest = w.line.skip(at + 1);
            lemma_prefix_ink(w.color);
            lemma_ink_push(w.lines, w.line);
            lemma_ink_push(w.lines, head);
            lemma_ink_push(w.lines.push(head), color_prefix(w.color) + rest);
            lemma_ink_concat(color_prefix(w.color), rest);
            assert(w.line =~= (head + gap) + rest);
            lemma_ink_concat(head + gap, rest);
            lemma_ink_concat(head, gap);
            assert(gap.drop_last() =~= Seq::empty());
            assert(ink(gap.drop_last()) =~= Seq::empty());
            assert(gap.last() == w.line[at]);
            assert(ink(gap) =~= Seq::empty());
            assert(ink_of_lines(held_pieces(w.broken_at_space())) =~= ink_of_lines(
                held_pieces(w),
            ));
        },
        None => {
            lemma_broken_ink(w);
        },
    }
}

proof fn lemma_placed_ink(w: Wrapping, t: Token)
    ensures
        ink_of_lines(held_pieces(w.placed(t))) == ink_of_lines(held_pieces(w)) + ink(seq![t]),
{
    lemma_ink_push(w.lines, w.line);
    lemma_ink_push(w.lines, w.line.push(t));
    lemma_ink_concat(w.line, seq![t]);
    assert(w.line + seq![t] =~= w.line.push(t));
    assert(ink_of_lines(held_pieces(w.placed(t))) =~= ink_of_lines(held_pieces(w)) + ink(
        seq![t],
    ));
}

proof fn lemma_wrapped_ink(pieces: Seq<Token>, n: int, max: int, font: Font)
    requires
        0 <= n <= pieces.len(),
        proper(pieces),
    ensures
        ink_of_lines(held_pieces(wrapped(pieces, n, max, font))) == ink(pieces.take(n)),
    decreases n,
{
    if n > 0 {
        lemma_wrapped_ink(pieces, n - 1, max, font);
        lemma_wrapped_sound(pieces, n - 1, max, font);
        let w = wrapped(pieces, n - 1, max, font);
        let t = pieces[n - 1];
        let next = w.broken_at_space();
        assert(pieces.take(n - 1) + seq![t] =~= pieces.take(n));
        lemma_ink_concat(pieces.take(n - 1), seq![t]);
        let one = seq![t];
        assert(one.drop_last() =~= Seq::empty());
        assert(ink(one.drop_last()) =~= Seq::empty());
        lemma_broken_ink(w);
        lemma_broken_at_space_ink(w);
        lemma_broken_ink(next);
        lemma_placed_ink(w, t);
        lemma_placed_ink(next, t);
        lemma_placed_ink(next.broken(), t);
        let before = ink_of_lines(held_pieces(w));
        assert(before + ink(one) =~= ink(pieces.take(n)));
        if t.code {
            lemma_ink_push(w.lines, w.line);
            lemma_ink_push(w.lines, w.line.push(t));
            lemma_ink_concat(w.line, seq![t]);
            assert(w.line + seq![t] =~= w.line.push(t));
        }
        if t.code || t.c == '\n' || t.c == ' ' {
            assert(ink(one) =~= Seq::empty());
            assert(before + ink(one) =~= before);
        }
        assert(ink_of_lines(held_pieces(w.step(t, max, font))) =~= before + ink(one));
    } else {
        let w = wrapped(pieces, 0, max, font);
        lemma_ink_push(w.lines, w.line);
        assert(pieces.take(0) =~= Seq::empty());
        assert(ink_of_lines(held_pieces(w)) =~= ink(pieces.take(0)));
    }
}

/// Wrapping drops nothing but spaces and newlines: the marks on all the lines, in
/// order, are the marks of the text.
pub proof fn law_wrapping_keeps_the_text(text: Seq<char>, max_width: int, font: Font)
    ensures
        ink_of_lines(shown_lines(text, max_width, font)) == ink(tokens(text, 0)),
{
    let pieces = tokens(text, 0);
    let max = wrap_width(max_width, font);
    lemma_tokens_proper(text, 0, 0);
    lemma_wrapped_ink(pieces, pieces.len() as int, max, font);
    assert(pieces.take(pieces.len() as int) =~= pieces);
    let lines = all_lines(pieces, max, font);
    lemma_ink_push(lines.drop_last(), lines.last());
    assert(lines.drop_last().push(lines.last()) =~= lines);
    if lines.last().len() == 0 {
        assert(ink(lines.last()) =~= Seq::empty());
        assert(ink_of_lines(lines.drop_last()) + Seq::<char>::empty() =~= ink_of_lines(
            lines.drop_last(),
        ));
    }
}

/// A line that is broken off continues with the color in force.
pub proof fn law_new_lines_repeat_the_color(w: Wrapping, t: Token, max: int, font: Font)
    requires
        w.step(t, max, font).lines.len() > w.lines.len(),
    ensures
        color_prefix(w.color).is_prefix_of(w.step(t, max, font).line),
        w.step(t, max, font).color == w.color,
{
    let after = w.step(t, max, font);
    let p = color_prefix(w.color);
    assert(p =~= after.line.subrange(0, p.len() as int));
}

} // verus!
