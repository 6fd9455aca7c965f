//! Legacy-coded text: stripping the codes, measuring, and breaking into lines.

use vstd::prelude::*;
use crate::chat::component::SECTION;
use crate::text::{chars_of, text_from};

verus! {

/// A piece of legacy-coded text: a visible glyph, or a style code, which has no
/// width. `tag` says where the piece came from.
#[derive(Debug)]
pub struct Piece<C> {
    pub code: bool,
    pub c: C,
    pub tag: usize,
}

impl<C: Copy> Clone for Piece<C> {
    fn clone(&self) -> (copy: Self)
        ensures
            copy == *self,
    {
        *self
    }
}

impl<C: Copy> Copy for Piece<C> {

}

/// A piece of text made of characters.
pub type Token = Piece<char>;

/// The advances of a font at one scale, in screen px: a table by character code
/// and one advance for all characters beyond it.
#[derive(Debug)]
pub struct Font {
    pub table: Vec<u16>,
    pub other: u16,
}

impl Font {
    pub open spec fn spec_advance(&self, c: char) -> int {
        if (c as int) < self.table@.len() {
            self.table@[c as int] as int
        } else {
            self.other as int
        }
    }

    /// The advance of a character.
    pub fn char_width(&self, c: char) -> (w: i32)
        ensures
            w == self.spec_advance(c),
            0 <= w <= 65535,
    {
        let i = c as u32 as usize;
        if i < self.table.len() {
            self.table[i] as i32
        } else {
            self.other as i32
        }
    }
}

/// The pieces of a text from its `i`-th character on. A section sign takes the
/// character after it as its code; one at the very end is dropped.
pub open spec fn tokens_from(text: Seq<char>, tag: usize, i: int) -> Seq<Token>
    decreases text.len() - i,
{
    if i < 0 || i >= text.len() {
        Seq::empty()
    } else if text[i] == SECTION {
        if i + 1 < text.len() {
            seq![Token { code: true, c: text[i + 1], tag }] + tokens_from(text, tag, i + 2)
        } else {
            Seq::empty()
        }
    } else {
        seq![Token { code: false, c: text[i], tag }] + tokens_from(text, tag, i + 1)
    }
}

/// The pieces of a text.
pub open spec fn tokens(text: Seq<char>, tag: usize) -> Seq<Token> {
    tokens_from(text, tag, 0)
}

/// The pieces that are glyphs.
pub open spec fn glyphs(pieces: Seq<Token>) -> Seq<Token>
    decreases pieces.len(),
{
    if pieces.len() == 0 {
        Seq::empty()
    } else if pieces.last().code {
        glyphs(pieces.drop_last())
    } else {
        glyphs(pieces.drop_last()).push(pieces.last())
    }
}

/// The characters of pieces, codes included as section sign and code.
pub open spec fn rendered(pieces: Seq<Token>) -> Seq<char>
    decreases pieces.len(),
{
    if pieces.len() == 0 {
        Seq::empty()
    } else if pieces.last().code {
        rendered(pieces.drop_last()) + seq![SECTION, pieces.last().c]
    } else {
        rendered(pieces.drop_last()) + seq![pieces.last().c]
    }
}

/// The characters of glyphs.
pub open spec fn chars(pieces: Seq<Token>) -> Seq<char> {
    Seq::new(pieces.len(), |i: int| pieces[i].c)
}

/// The visible characters of a text.
pub open spec fn visible(text: Seq<char>) -> Seq<char> {
    chars(glyphs(tokens(text, 0)))
}

/// The width of pieces.
pub open spec fn width(pieces: Seq<Token>, font: Font) -> int
    decreases pieces.len(),
{
    if pieces.len() == 0 {
        0
    } else {
        width(pieces.drop_last(), font) + if pieces.last().code {
            0
        } else {
            font.spec_advance(pieces.last().c)
        }
    }
}

/// The width of a text: its visible characters side by side.
pub open spec fn spec_text_width(text: Seq<char>, font: Font) -> int {
    width(tokens(text, 0), font)
}

/// Split a text into its pieces.
pub fn tokenize(text: &str, tag: usize) -> (pieces: Vec<Token>)
    ensures
        pieces@ == tokens(text@, tag),
{
    let t = chars_of(text);
    let mut pieces: Vec<Token> = Vec::new();
    let mut i: usize = 0;
    assert(pieces@ + tokens_from(t@, tag, 0) =~= tokens(t@, tag));
    while i < t.len()
        invariant
            i <= t.len(),
            pieces@ + tokens_from(t@, tag, i as int) == tokens(t@, tag),
        decreases t.len() - i,
    {
        let ghost before = pieces@;
        let ghost at = i as int;
        if t[i] == SECTION {
            if i + 1 < t.len() {
                pieces.push(Token { code: true, c: t[i + 1], tag });
                i += 2;
            } else {
                i += 1;
            }
        } else {
            pieces.push(Token { code: false, c: t[i], tag });
            i += 1;
        }
        assert(before + tokens_from(t@, tag, at) =~= pieces@ + tokens_from(t@, tag, i as int));
    }
    assert(pieces@ + tokens_from(t@, tag, i as int) =~= pieces@);
    pieces
}

/// The text of pieces.
pub fn render(pieces: &Vec<Token>) -> (text: String)
    ensures
        text@ == rendered(pieces@),
{
    let mut out: Vec<char> = Vec::new();
    let mut i: usize = 0;
    while i < pieces.len()
        invariant
            i <= pieces@.len(),
            out@ == rendered(pieces@.take(i as int)),
        decreases pieces@.len() - i,
    {
        if pieces[i].code {
            out.push(SECTION);
        }
        out.push(pieces[i].c);
        i += 1;
        assert(pieces@.take(i as int).drop_last() =~= pieces@.take(i - 1));
        assert(out@ =~= rendered(pieces@.take(i as int)));
    }
    assert(pieces@.take(i as int) =~= pieces@);
    text_from(&out)
}

/// Strip style codes, leaving only visible characters.
pub fn strip_legacy_codes(text: &str) -> (stripped: String)
    ensures
        stripped@ == visible(text@),
{
    let pieces = tokenize(text, 0);
    let mut out: Vec<char> = Vec::new();
    let mut i: usize = 0;
    while i < pieces.len()
        invariant
            i <= pieces@.len(),
            out@ == chars(glyphs(pieces@.take(i as int))),
        decreases pieces@.len() - i,
    {
        if !pieces[i].code {
            out.push(pieces[i].c);
        }
        i += 1;
        assert(pieces@.take(i as int).drop_last() =~= pieces@.take(i - 1));
        assert(out@ =~= chars(glyphs(pieces@.take(i as int))));
    }
    assert(pieces@.take(i as int) =~= pieces@);
    text_from(&out)
}

/// The width of a text in a font.
pub fn text_width(text: &str, font: &Font) -> (w: u128)
    ensures
        w == spec_text_width(text@, *font),
{
    let pieces = tokenize(text, 0);
    pieces_width(&pieces, font)
}

/// The width of pieces in a font.
pub fn pieces_width(pieces: &Vec<Token>, font: &Font) -> (w: u128)
    ensures
        w == width(pieces@, *font),
{
    let mut w: u128 = 0;
    let mut i: usize = 0;
    while i < pieces.len()
        invariant
            i <= pieces.len(),
            w == width(pieces@.take(i as int), *font),
            w <= i * 65535,
        decreases pieces@.len() - i,
    {
        if !pieces[i].code {
            w = w + font.char_width(pieces[i].c) as u128;
        }
        i += 1;
        assert(pieces@.take(i as int).drop_last() =~= pieces@.take(i - 1));
    }
    assert(pieces@.take(i as int) =~= pieces@);
    w
}

// ── Breaking into lines ───────────────────────────────────────────────────

/// Whether a style code selects one of the 16 colors.
pub open spec fn spec_color_code(c: char) -> bool {
    '0' <= c <= '9' || 'a' <= c <= 'f' || 'A' <= c <= 'F'
}

/// Whether a style code stays in force over a line break: a color, or the reset.
pub open spec fn carries_over(c: char) -> bool {
    spec_color_code(c) || c == 'r' || c == 'R'
}

/// Whether a style code selects one of the 16 colors.
pub fn is_color_code(c: char) -> (yes: bool)
    ensures
        yes == spec_color_code(c),
{
    ('0' <= c && c <= '9') || ('a' <= c && c <= 'f') || ('A' <= c && c <= 'F')
}

/// Text being broken into lines: the finished lines, the line being filled, where
/// its last space is, and the color in force.
#[verifier::ext_equal]
pub struct Wrapping {
    pub lines: Seq<Seq<Token>>,
    pub line: Seq<Token>,
    pub space: Option<int>,
    pub color: Option<char>,
}

/// What a new line starts with: the color in force.
pub open spec fn color_prefix(color: Option<char>) -> Seq<Token> {
    match color {
        Some(c) => seq![Token { code: true, c, tag: 0 }],
        None => Seq::empty(),
    }
}

impl Wrapping {
    pub open spec fn start() -> Wrapping {
        Wrapping { lines: Seq::empty(), line: Seq::empty(), space: None, color: None }
    }

    /// Finish the line and start a new one.
    pub open spec fn broken(self) -> Wrapping {
        Wrapping {
            lines: self.lines.push(self.line),
            line: color_prefix(self.color),
            space: None,
            color: self.color,
        }
    }

    /// Finish the line at its last space, carrying what follows over to the next
    /// line; without a space, finish it where it is.
    pub open spec fn broken_at_space(self) -> Wrapping {
        match self.space {
            Some(at) => Wrapping {
                lines: self.lines.push(self.line.take(at)),
                line: color_prefix(self.color) + self.line.skip(at + 1),
                space: None,
                color: self.color,
            },
            None => self.broken(),
        }
    }

    /// Put a glyph at the end of the line.
    pub open spec fn placed(self, t: Token) -> Wrapping {
        Wrapping {
            line: self.line.push(t),
            space: if t.c == ' ' {
                Some(self.line.len() as int)
            } else {
                self.space
            },
            ..self
        }
    }

    /// A glyph of this advance does not fit on the line. The first glyph with a
    /// width always does.
    pub open spec fn too_long(self, advance: int, max: int, font: Font) -> bool {
        width(self.line, font) + advance > max && width(self.line, font) > 0
    }

    /// Take in one piece: codes have no width, a newline ends the line, a space
    /// that does not fit ends the line and is dropped, and any other glyph that
    /// does not fit breaks the line first.
    pub open spec fn step(self, t: Token, max: int, font: Font) -> Wrapping {
        let advance = font.spec_advance(t.c);
        if t.code {
            Wrapping {
                line: self.line.push(t),
                color: if carries_over(t.c) {
                    Some(t.c)
                } else {
                    self.color
                },
                ..self
            }
        } else if t.c == '\n' {
            self.broken()
        } else if self.too_long(advance, max, font) {
            if t.c == ' ' {
                self.broken()
            } else {
                let next = self.broken_at_space();
                if next.too_long(advance, max, font) {
                    next.broken().placed(t)
                } else {
                    next.placed(t)
                }
            }
        } else {
            self.placed(t)
        }
    }
}

/// Text broken up to its `n`-th piece.
pub open spec fn wrapped(pieces: Seq<Token>, n: int, max: int, font: Font) -> Wrapping
    decreases n,
{
    if n <= 0 {
        Wrapping::start()
    } else {
        wrapped(pieces, n - 1, max, font).step(pieces[n - 1], max, font)
    }
}

/// All lines, the last one included.
pub open spec fn all_lines(pieces: Seq<Token>, max: int, font: Font) -> Seq<Seq<Token>> {
    let w = wrapped(pieces, pieces.len() as int, max, font);
    w.lines.push(w.line)
}

/// The width that lines may have: never less than a `W`.
pub open spec fn wrap_width(max_width: int, font: Font) -> int {
    if max_width < font.spec_advance('W') {
        font.spec_advance('W')
    } else {
        max_width
    }
}

/// Lines without a last one that has nothing on it, unless it is the only one.
pub open spec fn without_empty_end(lines: Seq<Seq<Token>>) -> Seq<Seq<Token>> {
    if lines.last().len() == 0 && lines.len() > 1 {
        lines.drop_last()
    } else {
        lines
    }
}

/// The lines a text is broken into. A last line with nothing on it is left out,
/// unless it is the only one.
pub open spec fn wrapped_lines(text: Seq<char>, max_width: int, font: Font) -> Seq<Seq<char>> {
    let shown = without_empty_end(
        all_lines(tokens(text, 0), wrap_width(max_width, font), font),
    );
    Seq::new(shown.len(), |i: int| rendered(shown[i]))
}

// ── Widths of lines ───────────────────────────────────────────────────────

pub proof fn lemma_width_concat(a: Seq<Token>, b: Seq<Token>, font: Font)
    ensures
        width(a + b, font) == width(a, font) + width(b, font),
    decreases b.len(),
{
    if b.len() == 0 {
        assert(a + b =~= a);
    } else {
        assert((a + b).drop_last() =~= a + b.drop_last());
        lemma_width_concat(a, b.drop_last(), font);
    }
}

pub proof fn lemma_width_nonnegative(a: Seq<Token>, font: Font)
    ensures
        width(a, font) >= 0,
    decreases a.len(),
{
    if a.len() > 0 {
        lemma_width_nonnegative(a.drop_last(), font);
    }
}

pub proof fn lemma_prefix_width(color: Option<char>, font: Font)
    ensures
        width(color_prefix(color), font) == 0,
{
    match color {
        Some(c) => {
            let one = color_prefix(color);
            assert(one.len() == 1);
            assert(one.last() == one[0]);
            assert(one.last().code);
            assert(one.drop_last() =~= Seq::empty());
            assert(width(one.drop_last(), font) == 0);
        },
        None => {},
    }
}

/// No line is wider than `limit`, and a remembered space is a space on the line.
pub open spec fn within(w: Wrapping, limit: int, font: Font) -> bool {
    &&& forall|i: int| 0 <= i < w.lines.len() ==> width(#[trigger] w.lines[i], font) <= limit
    &&& width(w.line, font) <= limit
    &&& w.space matches Some(at) ==> 0 <= at < w.line.len()
}

pub proof fn lemma_broken_within(w: Wrapping, limit: int, font: Font)
    requires
        within(w, limit, font),
        limit >= 0,
    ensures
        within(w.broken(), limit, font),
        width(w.broken().line, font) == 0,
{
    lemma_prefix_width(w.color, font);
}

pub proof fn lemma_broken_at_space_within(w: Wrapping, limit: int, font: Font)
    requires
        within(w, limit, font),
        limit >= 0,
    ensures
        within(w.broken_at_space(), limit, font),
        width(w.broken_at_space().line, font) <= width(w.line, font),
{
    lemma_width_nonnegative(w.line, font);
    match w.space {
        Some(at) => {
            lemma_prefix_width(w.color, font);
            let head = w.line.take(at);
            let gap = w.line.subrange(at, at + 1);
            let rest = w.line.skip(at + 1);
            assert(w.line =~= (head + gap) + rest);
            lemma_width_concat(head + gap, rest, font);
            lemma_width_concat(head, gap, font);
            lemma_width_nonnegative(head, font);
            lemma_width_nonnegative(gap, font);
            lemma_width_nonnegative(rest, font);
            lemma_width_concat(color_prefix(w.color), rest, font);
        },
        None => {
            lemma_broken_within(w, limit, font);
        },
    }
}

pub proof fn lemma_step_within(w: Wrapping, t: Token, max: int, limit: int, font: Font)
    requires
        within(w, limit, font),
        0 <= max <= limit,
        !t.code ==> font.spec_advance(t.c) <= limit,
    ensures
        within(w.step(t, max, font), limit, font),
{
    let advance = font.spec_advance(t.c);
    lemma_width_nonnegative(w.line, font);
    assert(w.line.push(t).drop_last() =~= w.line);
    lemma_broken_within(w, limit, font);
    lemma_broken_at_space_within(w, limit, font);
    let next = w.broken_at_space();
    lemma_width_nonnegative(next.line, font);
    assert(next.line.push(t).drop_last() =~= next.line);
    lemma_broken_within(next, limit, font);
    assert(next.broken().line.push(t).drop_last() =~= next.broken().line);
}

pub proof fn lemma_wrapped_within(pieces: Seq<Token>, n: int, max: int, limit: int, font: Font)
    requires
        0 <= n <= pieces.len(),
        0 <= max <= limit,
        forall|i: int|
            0 <= i < pieces.len() && !(#[trigger] pieces[i]).code ==> font.spec_advance(
                pieces[i].c,
            ) <= limit,
    ensures
        within(wrapped(pieces, n, max, font), limit, font),
    decreases n,
{
    if n > 0 {
        lemma_wrapped_within(pieces, n - 1, max, limit, font);
        lemma_step_within(
            wrapped(pieces, n - 1, max, font),
            pieces[n - 1],
            max,
            limit,
            font,
        );
    }
}

} // verus!
