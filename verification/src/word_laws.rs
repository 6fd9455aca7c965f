//! What splitting and looking up text is for: words and lines come apart where they are
//! separated, and a key finds its first pattern.

use vstd::prelude::*;
use crate::chat::lang::{language_view, pattern_from, Language};
use crate::text::{
    decimal, digits_value, lines_of, number_of, split_lines, split_words, trimmed, whitespace,
    without_prefix, words_of,
};

verus! {

/// A run of characters without white space.
pub open spec fn solid(word: Seq<char>) -> bool {
    forall|i: int| 0 <= i < word.len() ==> !whitespace(#[trigger] word[i])
}

proof fn lemma_open_word(text: Seq<char>, word: Seq<char>)
    requires
        solid(word),
    ensures
        split_words(text + word) == (split_words(text).0, split_words(text).1 + word),
    decreases word.len(),
{
    if word.len() == 0 {
        assert(text + word =~= text);
        assert(split_words(text).1 + word =~= split_words(text).1);
    } else {
        let before = word.drop_last();
        assert forall|i: int| 0 <= i < before.len() implies !whitespace(#[trigger] before[i]) by {
            assert(before[i] == word[i]);
        }
        lemma_open_word(text, before);
        assert((text + word).drop_last() =~= text + before);
        assert((text + word).last() == word.last());
        assert((split_words(text).1 + before).push(word.last()) =~= split_words(text).1 + word);
    }
}

/// A word behind white space is one more word; white space at the end adds none.
pub proof fn law_words_are_separated_by_white_space(text: Seq<char>, c: char, word: Seq<char>)
    requires
        whitespace(c),
        solid(word),
        word.len() > 0,
    ensures
        words_of(text.push(c)) == words_of(text),
        words_of(text.push(c) + word) == words_of(text).push(word),
        words_of(word) == seq![word],
        words_of(Seq::empty()).len() == 0,
{
    let spaced = text.push(c);
    assert(spaced.drop_last() =~= text && spaced.last() == c);
    lemma_open_word(spaced, word);
    assert(split_words(spaced).1.len() == 0);
    assert(split_words(spaced).1 + word =~= word);
    lemma_open_word(Seq::empty(), word);
    assert(Seq::<char>::empty() + word =~= word);
    assert(words_of(word) =~= seq![word]);
}

/// A run of characters without a newline.
pub open spec fn unbroken(line: Seq<char>) -> bool {
    forall|i: int| 0 <= i < line.len() ==> #[trigger] line[i] != '\n'
}

proof fn lemma_open_line(text: Seq<char>, line: Seq<char>)
    requires
        unbroken(line),
    ensures
        split_lines(text + line) == (split_lines(text).0, split_lines(text).1 + line),
    decreases line.len(),
{
    if line.len() == 0 {
        assert(text + line =~= text);
        assert(split_lines(text).1 + line =~= split_lines(text).1);
    } else {
        let before = line.drop_last();
        assert forall|i: int| 0 <= i < before.len() implies #[trigger] before[i] != '\n' by {
            assert(before[i] == line[i]);
        }
        lemma_open_line(text, before);
        assert((text + line).drop_last() =~= text + before);
        assert((text + line).last() == line.last());
        assert((split_lines(text).1 + before).push(line.last()) =~= split_lines(text).1 + line);
    }
}

/// A line behind a newline is one more line, trimmed; an empty one is none.
pub proof fn law_lines_are_separated_by_newlines(text: Seq<char>, line: Seq<char>)
    requires
        unbroken(line),
    ensures
        trimmed(line).len() > 0 ==> lines_of(text.push('\n') + line) == lines_of(text).push(
            trimmed(line),
        ),
        trimmed(line).len() == 0 ==> lines_of(text.push('\n') + line) == lines_of(text),
{
    let ended = text.push('\n');
    assert(ended.drop_last() =~= text && ended.last() == '\n');
    lemma_open_line(ended, line);
    assert(split_lines(ended).1.len() == 0);
    assert(split_lines(ended).1 + line =~= line);
}

/// A prefix is taken off as often as it stands in front, and nothing else is.
pub proof fn law_prefixes_are_taken_off(text: Seq<char>, prefix: Seq<char>)
    requires
        prefix.len() > 0,
    ensures
        without_prefix(prefix + text, prefix) == without_prefix(text, prefix),
        text.len() < prefix.len() ==> without_prefix(text, prefix) == text,
        text.len() > 0 && text[0] != prefix[0] ==> without_prefix(text, prefix) == text,
{
    let all = prefix + text;
    assert(all.subrange(0, prefix.len() as int) =~= prefix);
    assert(all.skip(prefix.len() as int) =~= text);
    if text.len() > 0 && text[0] != prefix[0] && prefix.len() <= text.len() {
        assert(text.subrange(0, prefix.len() as int)[0] != prefix[0]);
    }
}

/// One more digit makes a number ten times as large and that much more; a sign in front
/// turns it over.
pub proof fn law_digits_count_by_tens(digits: Seq<char>, c: char, n: int)
    requires
        digits_value(digits) == Some(n),
        digits.len() > 0,
        n < 1000000,
    ensures
        '0' <= c <= '9' ==> digits_value(digits.push(c)) == Some(10 * n + (c as int - '0' as int)),
        !('0' <= c <= '9') ==> digits_value(digits.push(c)) is None,
        n >= 0 && digits[0] != '-' && digits[0] != '+' ==> {
            &&& number_of(digits) == Some(n)
            &&& number_of(seq!['-'] + digits) == Some(-n)
            &&& number_of(seq!['+'] + digits) == Some(n)
        },
        number_of(Seq::empty()) is None,
        number_of(seq!['-']) is None,
{
    assert(digits.push(c).drop_last() =~= digits);
    assert((seq!['-'] + digits).skip(1) =~= digits);
    assert((seq!['+'] + digits).skip(1) =~= digits);
    assert(seq!['-'].skip(1).len() == 0);
}

/// A number is written with its last digit last, ten times as many in front of it, and a
/// sign where it is negative.
pub proof fn law_numbers_are_written_by_tens(n: int, d: int)
    requires
        n > 0,
        0 <= d < 10,
    ensures
        decimal(10 * n + d) == decimal(n) + decimal(d),
        decimal(d).len() == 1,
        decimal(d)[0] as int == '0' as int + d,
        decimal(-n) == seq!['-'] + decimal(n),
{
    assert((10 * n + d) / 10 == n && (10 * n + d) % 10 == d);
    assert(decimal(n).push(decimal(d)[0]) =~= decimal(n) + decimal(d));
}

/// A key stands for the first pattern listed for it; one that is not listed is shown itself.
pub proof fn law_keys_find_their_first_pattern(lang: Language, key: Seq<char>, i: int)
    requires
        0 <= i < lang.entries@.len(),
        lang.entries@[i].0@ == key,
        forall|j: int| 0 <= j < i ==> (#[trigger] lang.entries@[j]).0@ != key,
    ensures
        lang.pattern(key) == Some(lang.entries@[i].1@),
        lang.text_for(key) == lang.entries@[i].1@,
{
    lemma_pattern(language_view(lang.entries@), key, 0, i);
}

proof fn lemma_pattern(entries: Seq<(Seq<char>, Seq<char>)>, key: Seq<char>, from: int, i: int)
    requires
        0 <= from <= i < entries.len(),
        entries[i].0 == key,
        forall|j: int| from <= j < i ==> (#[trigger] entries[j]).0 != key,
    ensures
        pattern_from(entries, key, from) == Some(entries[i].1),
    decreases i - from,
{
    if from < i {
        lemma_pattern(entries, key, from + 1, i);
    }
}

/// A key that is not listed has no pattern, and stands for itself.
pub proof fn law_unlisted_keys_stand_for_themselves(lang: Language, key: Seq<char>)
    requires
        forall|j: int| 0 <= j < lang.entries@.len() ==> (#[trigger] lang.entries@[j]).0@ != key,
    ensures
        lang.pattern(key) is None,
        lang.text_for(key) == key,
{
    let view = language_view(lang.entries@);
    assert forall|j: int| 0 <= j < view.len() implies (#[trigger] view[j]).0 != key by {
        assert(view[j].0 == lang.entries@[j].0@);
    }
    lemma_no_pattern(view, key, 0);
}

proof fn lemma_no_pattern(entries: Seq<(Seq<char>, Seq<char>)>, key: Seq<char>, from: int)
    requires
        0 <= from,
        forall|j: int| 0 <= j < entries.len() ==> (#[trigger] entries[j]).0 != key,
    ensures
        pattern_from(entries, key, from) is None,
    decreases entries.len() - from,
{
    if from < entries.len() {
        lemma_no_pattern(entries, key, from + 1);
    }
}

/// Numbers of 64 bits are read, down to the least and up to the greatest; greater and
/// lesser ones are not.
pub proof fn law_only_64_bit_numbers_are_read(digits: Seq<char>, n: int)
    requires
        digits.len() > 0,
        digits[0] != '-' && digits[0] != '+',
        digits_value(digits) == Some(n),
        n >= 0,
    ensures
        number_of(digits) is Some <==> n < 0x8000_0000_0000_0000,
        number_of(seq!['-'] + digits) is Some <==> n <= 0x8000_0000_0000_0000,
        number_of(digits) matches Some(k) ==> k == n,
        number_of(seq!['-'] + digits) matches Some(k) ==> k == -n,
{
    assert((seq!['-'] + digits).skip(1) =~= digits);
}

} // verus!
