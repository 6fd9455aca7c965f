//! Working with text as a sequence of characters.

use vstd::prelude::*;
use vstd::string::*;

verus! {

/// `String::push` appends one character at the end.
pub assume_specification[ String::push ](s: &mut String, c: char)
    ensures
        final(s)@ == old(s)@.push(c),
;

/// The characters of a text.
pub fn chars_of(text: &str) -> (chars: Vec<char>)
    ensures
        chars@ == text@,
{
    let mut chars: Vec<char> = Vec::new();
    for c in it: text.chars()
        invariant
            chars@ == it.seq().take(it.index() as int),
            it.seq() == text@,
    {
        chars.push(c);
        assert(it.seq().take(it.index() + 1) =~= it.seq().take(it.index() as int).push(
            it.seq()[it.index() as int],
        ));
    }
    assert(text@.take(text@.len() as int) =~= text@);
    chars
}

/// The text made of the characters `[from, to)`.
pub fn text_of(chars: &Vec<char>, from: usize, to: usize) -> (text: String)
    requires
        from <= to <= chars@.len(),
    ensures
        text@ == chars@.subrange(from as int, to as int),
{
    let mut text = String::new();
    let mut i: usize = from;
    while i < to
        invariant
            from <= i <= to <= chars@.len(),
            text@ == chars@.subrange(from as int, i as int),
        decreases to - i,
    {
        text.push(chars[i]);
        i += 1;
        assert(chars@.subrange(from as int, i as int) =~= chars@.subrange(
            from as int,
            i - 1,
        ).push(chars@[i - 1]));
    }
    text
}

/// The text made of all the characters.
pub fn text_from(chars: &Vec<char>) -> (text: String)
    ensures
        text@ == chars@,
{
    assert(chars@.subrange(0, chars@.len() as int) =~= chars@);
    text_of(chars, 0, chars.len())
}

/// A copy of a text.
pub fn copy_text(text: &str) -> (copy: String)
    ensures
        copy@ == text@,
{
    text_from(&chars_of(text))
}

/// Whether the characters from `at` on start with `word`.
pub fn starts_at(chars: &Vec<char>, at: usize, word: &Vec<char>) -> (yes: bool)
    requires
        at <= chars@.len(),
    ensures
        yes == (at + word@.len() <= chars@.len() && chars@.subrange(
            at as int,
            at + word@.len(),
        ) == word@),
{
    if word.len() > chars.len() - at {
        return false;
    }
    let mut i: usize = 0;
    while i < word.len()
        invariant
            i <= word@.len(),
            at + word@.len() <= chars.len(),
            forall|j: int| 0 <= j < i ==> chars@[at + j] == word@[j],
        decreases word@.len() - i,
    {
        if chars[at + i] != word[i] {
            assert(chars@.subrange(at as int, at + word@.len())[i as int] != word@[i as int]);
            return false;
        }
        i += 1;
    }
    assert(chars@.subrange(at as int, at + word@.len()) =~= word@);
    true
}

/// Whether two character sequences are the same.
pub fn same_chars(a: &Vec<char>, b: &Vec<char>) -> (same: bool)
    ensures
        same == (a@ == b@),
{
    if a.len() != b.len() {
        return false;
    }
    assert(a@.subrange(0, a@.len() as int) =~= a@);
    starts_at(a, 0, b)
}

/// Whether two texts are the same.
pub fn same_text(a: &str, b: &str) -> (same: bool)
    ensures
        same == (a@ == b@),
{
    same_chars(&chars_of(a), &chars_of(b))
}

/// A text with every leading repetition of `prefix` removed.
pub open spec fn without_prefix(text: Seq<char>, prefix: Seq<char>) -> Seq<char>
    decreases text.len(),
{
    if prefix.len() > 0 && prefix.len() <= text.len() && text.subrange(0, prefix.len() as int)
        == prefix {
        without_prefix(text.skip(prefix.len() as int), prefix)
    } else {
        text
    }
}

/// Remove every leading repetition of `prefix`.
pub fn trim_prefix(text: &str, prefix: &str) -> (rest: String)
    ensures
        rest@ == without_prefix(text@, prefix@),
{
    let chars = chars_of(text);
    let word = chars_of(prefix);
    let mut at: usize = 0;
    assert(chars@.skip(0) =~= chars@);
    while word.len() > 0 && starts_at(&chars, at, &word)
        invariant
            at <= chars.len(),
            word@ == prefix@,
            without_prefix(chars@, word@) == without_prefix(chars@.skip(at as int), word@),
        decreases chars@.len() - at,
    {
        assert(chars@.skip(at as int).subrange(0, word@.len() as int) =~= chars@.subrange(
            at as int,
            at + word@.len(),
        ));
        assert(chars@.skip(at as int).skip(word@.len() as int) =~= chars@.skip(at + word@.len()));
        at = at + word.len();
    }
    assert(chars@.skip(at as int) =~= chars@.subrange(at as int, chars@.len() as int));
    assert(word@.len() <= chars@.skip(at as int).len() ==> chars@.skip(at as int).subrange(
        0,
        word@.len() as int,
    ) =~= chars@.subrange(at as int, at + word@.len()));
    text_of(&chars, at, chars.len())
}

/// Append a text to another.
pub fn append(text: &mut String, more: &str)
    ensures
        final(text)@ == old(text)@ + more@,
{
    let chars = chars_of(more);
    let mut i: usize = 0;
    assert(text@ + chars@.take(0) =~= text@);
    while i < chars.len()
        invariant
            i <= chars@.len(),
            chars@ == more@,
            text@ == old(text)@ + chars@.take(i as int),
        decreases chars@.len() - i,
    {
        text.push(chars[i]);
        i += 1;
        assert(old(text)@ + chars@.take(i as int) =~= (old(text)@ + chars@.take(i - 1)).push(
            chars@[i - 1],
        ));
    }
    assert(chars@.take(i as int) =~= chars@);
}

/// Two texts in a row.
pub fn joined(first: &str, second: &str) -> (text: String)
    ensures
        text@ == first@ + second@,
{
    let mut text = copy_text(first);
    append(&mut text, second);
    text
}

// ── Words ─────────────────────────────────────────────────────────────────

/// Characters that separate words.
pub open spec fn whitespace(c: char) -> bool {
    let n = c as int;
    ||| 0x9 <= n <= 0xd
    ||| n == 0x20
    ||| n == 0x85
    ||| n == 0xa0
    ||| n == 0x1680
    ||| 0x2000 <= n <= 0x200a
    ||| n == 0x2028
    ||| n == 0x2029
    ||| n == 0x202f
    ||| n == 0x205f
    ||| n == 0x3000
}

/// Whether a character separates words.
pub fn is_whitespace(c: char) -> (yes: bool)
    ensures
        yes == whitespace(c),
{
    let n: u32 = c as u32;
    match n {
        0x9..=0xd
        | 0x20
        | 0x85
        | 0xa0
        | 0x1680
        | 0x2000..=0x200a
        | 0x2028
        | 0x2029
        | 0x202f
        | 0x205f
        | 0x3000 => true,
        _ => false,
    }
}

/// The words of a text and the word it ends in the middle of, which may be empty.
pub open spec fn split_words(text: Seq<char>) -> (Seq<Seq<char>>, Seq<char>)
    decreases text.len(),
{
    if text.len() == 0 {
        (Seq::empty(), Seq::empty())
    } else {
        let (words, open) = split_words(text.drop_last());
        if !whitespace(text.last()) {
            (words, open.push(text.last()))
        } else if open.len() > 0 {
            (words.push(open), Seq::empty())
        } else {
            (words, open)
        }
    }
}

/// The words of a text: its longest stretches without whitespace.
pub open spec fn words_of(text: Seq<char>) -> Seq<Seq<char>> {
    let (words, open) = split_words(text);
    if open.len() > 0 {
        words.push(open)
    } else {
        words
    }
}

/// The characters of each word.
pub open spec fn words_view(words: Seq<Vec<char>>) -> Seq<Seq<char>> {
    Seq::new(words.len(), |i: int| words[i]@)
}

/// Split a text into its words.
pub fn split_whitespace(text: &str) -> (words: Vec<Vec<char>>)
    ensures
        words_view(words@) == words_of(text@),
{
    let chars = chars_of(text);
    let mut words: Vec<Vec<char>> = Vec::new();
    let mut open: Vec<char> = Vec::new();
    let mut i: usize = 0;
    assert(words_view(words@) =~= Seq::empty());
    assert(open@ =~= Seq::empty());
    while i < chars.len()
        invariant
            i <= chars@.len(),
            (words_view(words@), open@) == split_words(chars@.take(i as int)),
        decreases chars@.len() - i,
    {
        let c = chars[i];
        let ghost before = words@;
        let ghost part = open@;
        i += 1;
        assert(chars@.take(i as int).drop_last() =~= chars@.take(i - 1));
        if !is_whitespace(c) {
            open.push(c);
        } else if open.len() > 0 {
            let mut word: Vec<char> = Vec::new();
            std::mem::swap(&mut word, &mut open);
            words.push(word);
            assert(words_view(words@) =~= words_view(before).push(part));
            assert(open@ =~= Seq::empty());
        }
    }
    assert(chars@.take(i as int) =~= chars@);
    if open.len() > 0 {
        let ghost before = words@;
        let ghost part = open@;
        words.push(open);
        assert(words_view(words@) =~= words_view(before).push(part));
    }
    words
}

// ── Trimming and lines ────────────────────────────────────────────────────

/// A text without the whitespace at its start.
pub open spec fn trimmed_start(text: Seq<char>) -> Seq<char>
    decreases text.len(),
{
    if text.len() > 0 && whitespace(text[0]) {
        trimmed_start(text.skip(1))
    } else {
        text
    }
}

/// A text without the whitespace at its end.
pub open spec fn trimmed_end(text: Seq<char>) -> Seq<char>
    decreases text.len(),
{
    if text.len() > 0 && whitespace(text.last()) {
        trimmed_end(text.drop_last())
    } else {
        text
    }
}

/// A text without the whitespace at both ends.
pub open spec fn trimmed(text: Seq<char>) -> Seq<char> {
    trimmed_end(trimmed_start(text))
}

/// Characters without the whitespace at both ends.
fn trim_chars(chars: &Vec<char>) -> (text: String)
    ensures
        text@ == trimmed(chars@),
{
    let mut from: usize = 0;
    assert(chars@.skip(0) =~= chars@);
    while from < chars.len() && is_whitespace(chars[from])
        invariant
            from <= chars@.len(),
            trimmed_start(chars@) == trimmed_start(chars@.skip(from as int)),
        decreases chars@.len() - from,
    {
        assert(chars@.skip(from as int).skip(1) =~= chars@.skip(from + 1));
        from += 1;
    }
    let ghost rest = chars@.skip(from as int);
    assert(trimmed_start(chars@) == rest);
    let mut to: usize = chars.len();
    assert(chars@.subrange(from as int, to as int) =~= rest);
    while to > from && is_whitespace(chars[to - 1])
        invariant
            from <= to <= chars@.len(),
            trimmed_end(rest) == trimmed_end(chars@.subrange(from as int, to as int)),
        decreases to,
    {
        assert(chars@.subrange(from as int, to as int).drop_last() =~= chars@.subrange(
            from as int,
            to - 1,
        ));
        to -= 1;
    }
    text_of(chars, from, to)
}

/// A text without the whitespace at both ends.
pub fn trim(text: &str) -> (rest: String)
    ensures
        rest@ == trimmed(text@),
{
    trim_chars(&chars_of(text))
}

/// The lines that have ended within a text, and the one that has not; each is
/// trimmed, and the empty ones left out of the first.
pub open spec fn split_lines(text: Seq<char>) -> (Seq<Seq<char>>, Seq<char>)
    decreases text.len(),
{
    if text.len() == 0 {
        (Seq::empty(), Seq::empty())
    } else {
        let (lines, open) = split_lines(text.drop_last());
        if text.last() != '\n' {
            (lines, open.push(text.last()))
        } else {
            (with_trimmed(lines, open), Seq::empty())
        }
    }
}

/// Lines and one more, trimmed; an empty one is left out.
pub open spec fn with_trimmed(lines: Seq<Seq<char>>, line: Seq<char>) -> Seq<Seq<char>> {
    if trimmed(line).len() > 0 {
        lines.push(trimmed(line))
    } else {
        lines
    }
}

/// The lines of a text, trimmed, without the empty ones.
pub open spec fn lines_of(text: Seq<char>) -> Seq<Seq<char>> {
    let (lines, open) = split_lines(text);
    with_trimmed(lines, open)
}

/// The characters of each of a list of texts.
pub open spec fn texts_of(texts: Seq<String>) -> Seq<Seq<char>> {
    Seq::new(texts.len(), |i: int| texts[i]@)
}

fn push_trimmed(lines: &mut Vec<String>, line: &Vec<char>)
    ensures
        texts_of(final(lines)@) == with_trimmed(texts_of(old(lines)@), line@),
{
    let ghost before = lines@;
    let text = trim_chars(line);
    if text.as_str().unicode_len() > 0 {
        lines.push(text);
        assert(texts_of(lines@) =~= texts_of(before).push(trimmed(line@)));
    }
}

/// The lines of a text, trimmed, without the empty ones.
pub fn text_lines(text: &str) -> (lines: Vec<String>)
    ensures
        texts_of(lines@) == lines_of(text@),
{
    let chars = chars_of(text);
    let mut lines: Vec<String> = Vec::new();
    let mut open: Vec<char> = Vec::new();
    let mut i: usize = 0;
    assert(texts_of(lines@) =~= Seq::empty());
    assert(open@ =~= Seq::empty());
    while i < chars.len()
        invariant
            i <= chars@.len(),
            (texts_of(lines@), open@) == split_lines(chars@.take(i as int)),
        decreases chars@.len() - i,
    {
        let c = chars[i];
        i += 1;
        assert(chars@.take(i as int).drop_last() =~= chars@.take(i - 1));
        if c != '\n' {
            open.push(c);
        } else {
            push_trimmed(&mut lines, &open);
            open = Vec::new();
            assert(open@ =~= Seq::empty());
        }
    }
    assert(chars@.take(i as int) =~= chars@);
    push_trimmed(&mut lines, &open);
    lines
}

// ── Numbers ───────────────────────────────────────────────────────────────

/// A decimal digit.
pub open spec fn digit(n: int) -> char {
    (48 + n) as char
}

/// A number in decimal.
pub open spec fn decimal(n: int) -> Seq<char>
    decreases (if n < 0 { 1 - n } else { n }),
{
    if n < 0 {
        seq!['-'] + decimal(-n)
    } else if n < 10 {
        seq![digit(n)]
    } else {
        decimal(n / 10).push(digit(n % 10))
    }
}

/// A digit as a character.
fn digit_char(n: u8) -> (c: char)
    requires
        n < 10,
    ensures
        c == digit(n as int),
{
    match n {
        0 => '0',
        1 => '1',
        2 => '2',
        3 => '3',
        4 => '4',
        5 => '5',
        6 => '6',
        7 => '7',
        8 => '8',
        _ => '9',
    }
}

/// Append an unsigned number in decimal.
pub fn append_digits(text: &mut String, n: u64)
    ensures
        final(text)@ == old(text)@ + decimal(n as int),
    decreases n,
{
    if n < 10 {
        text.push(digit_char(n as u8));
        assert(text@ =~= old(text)@ + decimal(n as int));
    } else {
        append_digits(text, n / 10);
        text.push(digit_char((n % 10) as u8));
        assert(text@ =~= old(text)@ + decimal(n as int));
    }
}

/// Append a number in decimal.
pub fn append_number(text: &mut String, n: i64)
    ensures
        final(text)@ == old(text)@ + decimal(n as int),
{
    if n < 0 {
        text.push('-');
        let ghost signed = text@;
        let size: u64 = (-(n as i128)) as u64;
        append_digits(text, size);
        assert(text@ =~= old(text)@ + (seq!['-'] + decimal(-n)));
    } else {
        append_digits(text, n as u64);
    }
}

/// A number in decimal.
pub fn number_text(n: i64) -> (text: String)
    ensures
        text@ == decimal(n as int),
{
    let mut text = String::new();
    append_number(&mut text, n);
    assert(text@ =~= decimal(n as int));
    text
}

/// A digit's value; nothing for other characters.
pub open spec fn digit_value(c: char) -> Option<int> {
    if '0' <= c <= '9' {
        Some(c as int - 48)
    } else {
        None
    }
}

/// The value of a run of digits; nothing if another character stands in it.
pub open spec fn digits_value(chars: Seq<char>) -> Option<int>
    decreases chars.len(),
{
    if chars.len() == 0 {
        Some(0)
    } else {
        match (digits_value(chars.drop_last()), digit_value(chars.last())) {
            (Some(n), Some(d)) => Some(n * 10 + d),
            _ => None,
        }
    }
}

/// The number that a text writes: digits with an optional sign before them, within
/// the range of a 64-bit number.
pub open spec fn number_of(chars: Seq<char>) -> Option<int> {
    let signed = chars.len() > 0 && (chars[0] == '-' || chars[0] == '+');
    let digits = if signed {
        chars.skip(1)
    } else {
        chars
    };
    if digits.len() == 0 {
        None
    } else {
        match digits_value(digits) {
            Some(n) => {
                let value = if chars[0] == '-' {
                    -n
                } else {
                    n
                };
                if i64::MIN <= value <= i64::MAX {
                    Some(value)
                } else {
                    None
                }
            },
            None => None,
        }
    }
}

/// More digits never make a smaller number, and a bad character stays bad.
proof fn lemma_digits_grow(chars: Seq<char>, n: int)
    requires
        0 <= n <= chars.len(),
    ensures
        match (digits_value(chars.take(n)), digits_value(chars)) {
            (Some(a), Some(b)) => 0 <= a <= b,
            (None, b) => b is None,
            (Some(a), None) => 0 <= a,
        },
    decreases chars.len() - n,
{
    if n == chars.len() {
        assert(chars.take(n) =~= chars);
        lemma_digits_value(chars);
    } else {
        lemma_digits_grow(chars, n + 1);
        assert(chars.take(n + 1).drop_last() =~= chars.take(n));
        lemma_digits_value(chars.take(n));
    }
}

proof fn lemma_digits_value(chars: Seq<char>)
    ensures
        digits_value(chars) matches Some(n) ==> n >= 0,
    decreases chars.len(),
{
    if chars.len() > 0 {
        lemma_digits_value(chars.drop_last());
    }
}

/// Read a number.
pub fn parse_number(chars: &Vec<char>) -> (n: Option<i64>)
    ensures
        match (n, number_of(chars@)) {
            (Some(a), Some(b)) => a == b,
            (None, None) => true,
            _ => false,
        },
{
    if chars.len() == 0 {
        return None;
    }
    let negative = chars[0] == '-';
    let start: usize = if negative || chars[0] == '+' {
        1
    } else {
        0
    };
    if start == chars.len() {
        return None;
    }
    let ghost digits = chars@.skip(start as int);
    assert(start == 0 ==> digits =~= chars@);
    let mut value: i128 = 0;
    let mut i: usize = start;
    assert(digits.take(0) =~= Seq::empty());
    while i < chars.len()
        invariant
            start <= i <= chars@.len(),
            digits == chars@.skip(start as int),
            digits_value(digits.take(i - start)) == Some(value as int),
            0 <= value <= 0x8000_0000_0000_0000,
            start == 0 || start == 1,
            start == 1 <==> (chars@[0] == '-' || chars@[0] == '+'),
            negative == (chars@[0] == '-'),
            chars@.len() > start,
            start == 0 ==> digits == chars@,
        decreases chars@.len() - i,
    {
        let c = chars[i];
        assert(digits.take(i - start + 1).drop_last() =~= digits.take(i - start));
        assert(digits.take(i - start + 1).last() == c);
        proof {
            lemma_digits_grow(digits, i - start + 1);
        }
        if c < '0' || c > '9' {
            return None;
        }
        value = value * 10 + (c as u32 - 48) as i128;
        i += 1;
        if value > 0x8000_0000_0000_0000 {
            return None;
        }
    }
    assert(digits.take(i - start) =~= digits);
    if negative {
        Some((-value) as i64)
    } else if value > 0x7fff_ffff_ffff_ffff {
        None
    } else {
        Some(value as i64)
    }
}

/// Reading back the decimal form of a number gives the number.
pub proof fn law_numbers_read_back(n: i64)
    ensures
        number_of(decimal(n as int)) == Some(n as int),
{
    if n < 0 {
        lemma_decimal(-n);
        let chars = decimal(n as int);
        assert(chars =~= seq!['-'] + decimal(-n));
        assert(chars.skip(1) =~= decimal(-n));
    } else {
        lemma_decimal(n as int);
        let chars = decimal(n as int);
        assert(digit_value(chars[0]) is Some);
    }
}

proof fn lemma_decimal(n: int)
    requires
        n >= 0,
    ensures
        decimal(n).len() > 0,
        digits_value(decimal(n)) == Some(n),
        digit_value(decimal(n)[0]) is Some,
    decreases n,
{
    if n < 10 {
        let chars = decimal(n);
        assert(chars.drop_last() =~= Seq::empty());
        assert(digits_value(chars.drop_last()) == Some(0int));
        assert(chars.last() == digit(n));
        assert(digit_value(digit(n)) == Some(n));
    } else {
        lemma_decimal(n / 10);
        let chars = decimal(n);
        assert(chars.drop_last() =~= decimal(n / 10));
        assert(chars.last() == digit(n % 10));
        assert(digit_value(digit(n % 10)) == Some(n % 10));
        assert(chars[0] == decimal(n / 10)[0]);
    }
}

} // verus!
