//! The language table and the patterns in it.

use vstd::prelude::*;
use crate::text::{chars_of, copy_text, same_text, text_from};

verus! {

/// A language table: translation keys and their patterns.
#[derive(Debug)]
pub struct Language {
    pub entries: Vec<(String, String)>,
}

/// The value of a language table.
pub open spec fn language_view(entries: Seq<(String, String)>) -> Seq<(Seq<char>, Seq<char>)> {
    Seq::new(entries.len(), |i: int| (entries[i].0@, entries[i].1@))
}

/// The first pattern for `key`, from the `i`-th entry on.
pub open spec fn pattern_from(entries: Seq<(Seq<char>, Seq<char>)>, key: Seq<char>, i: int) -> Option<
    Seq<char>,
>
    decreases entries.len() - i,
{
    if i < 0 || i >= entries.len() {
        None
    } else if entries[i].0 == key {
        Some(entries[i].1)
    } else {
        pattern_from(entries, key, i + 1)
    }
}

impl Language {
    /// The pattern for `key`.
    pub open spec fn pattern(&self, key: Seq<char>) -> Option<Seq<char>> {
        pattern_from(language_view(self.entries@), key, 0)
    }

    /// Look a translation key up.
    pub fn translate_opt(&self, key: &str) -> (pattern: Option<&String>)
        ensures
            match pattern {
                Some(p) => self.pattern(key@) == Some(p@),
                None => self.pattern(key@) is None,
            },
    {
        let ghost table = language_view(self.entries@);
        let mut i: usize = 0;
        while i < self.entries.len()
            invariant
                i <= self.entries@.len(),
                table == language_view(self.entries@),
                self.pattern(key@) == pattern_from(table, key@, i as int),
            decreases self.entries@.len() - i,
        {
            if same_text(self.entries[i].0.as_str(), key) {
                return Some(&self.entries[i].1);
            }
            i += 1;
        }
        None
    }

    /// The text for a key, or the key itself where the table has none.
    pub fn tr(&self, key: &str) -> (text: String)
        ensures
            text@ == self.text_for(key@),
    {
        match self.translate_opt(key) {
            Some(pattern) => copy_text(pattern.as_str()),
            None => copy_text(key),
        }
    }

    /// The text shown for a key.
    pub open spec fn text_for(&self, key: Seq<char>) -> Seq<char> {
        match self.pattern(key) {
            Some(pattern) => pattern,
            None => key,
        }
    }
}

// ── Patterns ──────────────────────────────────────────────────────────────

/// The `i`-th argument; nothing beyond the last.
pub open spec fn arg_at(args: Seq<Seq<char>>, i: int) -> Seq<char> {
    if 0 <= i < args.len() {
        args[i]
    } else {
        Seq::empty()
    }
}

pub open spec fn is_digit(c: char) -> bool {
    '0' <= c <= '9'
}

/// Where the run of digits at `i` ends.
pub open spec fn digits_end(p: Seq<char>, i: int) -> int
    decreases p.len() - i,
{
    if 0 <= i < p.len() && is_digit(p[i]) {
        digits_end(p, i + 1)
    } else {
        i
    }
}

/// The number that the digits `[from, to)` write, counted no further than
/// `limit`.
pub open spec fn digits_value(p: Seq<char>, from: int, to: int, limit: int) -> int
    decreases to - from,
{
    if from >= to {
        0
    } else {
        let n = digits_value(p, from, to - 1, limit) * 10 + (p[to - 1] as int - '0' as int);
        if n > limit {
            limit
        } else {
            n
        }
    }
}

/// A pattern filled in from its `i`-th character on: `%s` takes the next
/// argument, `%n$s` the n-th, `%%` is a percent sign, and everything else stands
/// for itself.
pub open spec fn filled_from(p: Seq<char>, args: Seq<Seq<char>>, i: int, next: int) -> Seq<char>
    decreases p.len() - i,
{
    if i < 0 || i >= p.len() {
        Seq::empty()
    } else if p[i] != '%' {
        seq![p[i]] + filled_from(p, args, i + 1, next)
    } else if i + 1 < p.len() && p[i + 1] == '%' {
        seq!['%'] + filled_from(p, args, i + 2, next)
    } else if i + 1 < p.len() && p[i + 1] == 's' {
        arg_at(args, next) + filled_from(p, args, i + 2, next + 1)
    } else {
        let j = digits_end(p, i + 1);
        if i + 1 < j && j + 1 < p.len() && p[j] == '$' && p[j + 1] == 's' {
            arg_at(args, digits_value(p, i + 1, j, args.len() as int + 1) - 1) + filled_from(
                p,
                args,
                j + 2,
                next,
            )
        } else {
            seq!['%'] + filled_from(p, args, i + 1, next)
        }
    }
}

/// A pattern filled in with arguments.
pub open spec fn filled(p: Seq<char>, args: Seq<Seq<char>>) -> Seq<char> {
    filled_from(p, args, 0, 0)
}

/// The value of a list of texts.
pub open spec fn texts_view(texts: Seq<String>) -> Seq<Seq<char>> {
    Seq::new(texts.len(), |i: int| texts[i]@)
}

proof fn lemma_digits_end(p: Seq<char>, i: int)
    requires
        0 <= i <= p.len(),
    ensures
        i <= digits_end(p, i) <= p.len(),
        forall|k: int| i <= k < digits_end(p, i) ==> is_digit(#[trigger] p[k]),
        digits_end(p, i) < p.len() ==> !is_digit(p[digits_end(p, i)]),
    decreases p.len() - i,
{
    if i < p.len() && is_digit(p[i]) {
        lemma_digits_end(p, i + 1);
    }
}

/// Append the `i`-th argument.
fn push_arg(out: &mut Vec<char>, args: &Vec<String>, i: usize)
    ensures
        final(out)@ == old(out)@ + arg_at(texts_view(args@), i as int),
{
    if i < args.len() {
        let chars = chars_of(args[i].as_str());
        push_all(out, &chars);
    }
    assert(out@ =~= old(out)@ + arg_at(texts_view(args@), i as int));
}

/// Append characters.
pub fn push_all(out: &mut Vec<char>, chars: &Vec<char>)
    ensures
        final(out)@ == old(out)@ + chars@,
{
    let ghost before = out@;
    let mut i: usize = 0;
    while i < chars.len()
        invariant
            i <= chars@.len(),
            out@ == before + chars@.take(i as int),
        decreases chars@.len() - i,
    {
        out.push(chars[i]);
        i += 1;
        assert(chars@.take(i as int) =~= chars@.take(i - 1).push(chars@[i - 1]));
        assert(out@ =~= before + chars@.take(i as int));
    }
    assert(chars@.take(i as int) =~= chars@);
}

/// Fill a pattern in with arguments.
pub fn format_args_str(pattern: &str, args: &Vec<String>) -> (text: String)
    ensures
        text@ == filled(pattern@, texts_view(args@)),
{
    let p = chars_of(pattern);
    let ghost values = texts_view(args@);
    let limit: u128 = args.len() as u128 + 1;
    let mut out: Vec<char> = Vec::new();
    let mut i: usize = 0;
    let mut next: usize = 0;
    assert(Seq::<char>::empty() + filled(p@, values) =~= filled(p@, values));
    while i < p.len()
        invariant
            i <= p.len(),
            next <= i,
            values == texts_view(args@),
            limit == args.len() + 1,
            p@ == pattern@,
            filled(p@, values) == out@ + filled_from(p@, values, i as int, next as int),
        decreases p.len() - i,
    {
        let ghost before = out@;
        let ghost at = i as int;
        let ghost turn = next as int;
        if p[i] != '%' {
            out.push(p[i]);
            i += 1;
            assert(before + (seq![p@[at]] + filled_from(p@, values, at + 1, turn)) =~= out@
                + filled_from(p@, values, at + 1, turn));
        } else if i + 1 < p.len() && p[i + 1] == '%' {
            out.push('%');
            i += 2;
            assert(before + (seq!['%'] + filled_from(p@, values, at + 2, turn)) =~= out@
                + filled_from(p@, values, at + 2, turn));
        } else if i + 1 < p.len() && p[i + 1] == 's' {
            push_arg(&mut out, args, next);
            i += 2;
            next += 1;
            assert(before + (arg_at(values, turn) + filled_from(p@, values, at + 2, turn + 1))
                =~= out@ + filled_from(p@, values, at + 2, turn + 1));
        } else {
            let mut j: usize = i + 1;
            let mut n: u128 = 0;
            proof {
                lemma_digits_end(p@, at + 1);
            }
            while j < p.len() && '0' <= p[j] && p[j] <= '9'
                invariant
                    i + 1 <= j <= p.len(),
                    limit == args.len() + 1,
                            n <= limit,
                    digits_end(p@, i + 1) == digits_end(p@, j as int),
                    n == digits_value(p@, i + 1, j as int, limit as int),
                decreases p.len() - j,
            {
                let digit: u128 = (p[j] as u32 - '0' as u32) as u128;
                let m: u128 = n * 10 + digit;
                n = if m > limit {
                    limit
                } else {
                    m
                };
                j += 1;
            }
            if i + 1 < j && p.len() - j >= 2 && p[j] == '$' && p[j + 1] == 's' {
                if n > 0 {
                    push_arg(&mut out, args, (n - 1) as usize);
                }
                i = j + 2;
                assert(before + (arg_at(values, n - 1) + filled_from(p@, values, j + 2, turn))
                    =~= out@ + filled_from(p@, values, j + 2, turn));
            } else {
                out.push('%');
                i += 1;
                assert(before + (seq!['%'] + filled_from(p@, values, at + 1, turn)) =~= out@
                    + filled_from(p@, values, at + 1, turn));
            }
        }
    }
    assert(out@ + Seq::<char>::empty() =~= out@);
    text_from(&out)
}

} // verus!
