//! What a component's events and style are for: its own click and hover events go before
//! inherited ones, children take what they do not have, and codes say how text looks.

use vstd::prelude::*;
use crate::chat::component::{
    click_event, color_code, flat, flat_all, flat_each, flat_message, hover_text, joined, lemma_entry_smaller,
    message_segments, own_text, segs, segs_all, style_of, translation, ClickAction, ClickModel,
    SegmentModel, SECTION,
};
use crate::chat::json::{
    entry, entry_from, list_entry, parsed_json, table_entry, text_entry, JsonModel,
};
use crate::chat::lang::{digits_end, filled, filled_from, is_digit, Language};

verus! {

// ── Events ────────────────────────────────────────────────────────────────

/// No component in this one has a known click event of its own.
pub open spec fn clickless(value: JsonModel) -> bool
    decreases value,
{
    match value {
        JsonModel::List(parts) => clickless_all(parts),
        JsonModel::Table(entries) => click_event(entries) is None && match list_entry(
            entries,
            "extra"@,
        ) {
            Some(parts) => {
                proof {
                    lemma_extra_smaller(entries, parts);
                }
                clickless_all(parts)
            },
            None => true,
        },
        _ => true,
    }
}

/// No component of a row, or in one of them, has a known click event of its own.
pub open spec fn clickless_all(parts: Seq<JsonModel>) -> bool
    decreases parts,
{
    parts.len() == 0 || clickless_all(parts.drop_last()) && clickless(parts.last())
}

/// No component in this one has a hover text of its own.
pub open spec fn hoverless(value: JsonModel, lang: Language) -> bool
    decreases value,
{
    match value {
        JsonModel::List(parts) => hoverless_all(parts, lang),
        JsonModel::Table(entries) => hover_text(entries, lang) is None && match list_entry(
            entries,
            "extra"@,
        ) {
            Some(parts) => {
                proof {
                    lemma_extra_smaller(entries, parts);
                }
                hoverless_all(parts, lang)
            },
            None => true,
        },
        _ => true,
    }
}

/// No component of a row, or in one of them, has a hover text of its own.
pub open spec fn hoverless_all(parts: Seq<JsonModel>, lang: Language) -> bool
    decreases parts,
{
    parts.len() == 0 || hoverless_all(parts.drop_last(), lang) && hoverless(parts.last(), lang)
}

pub proof fn lemma_extra_smaller(entries: Seq<(Seq<char>, JsonModel)>, parts: Seq<JsonModel>)
    requires
        list_entry(entries, "extra"@) == Some(parts),
    ensures
        decreases_to!(entries => parts),
{
    lemma_entry_smaller(entries, "extra"@, 0);
    let j = choose|j: int|
        0 <= j < entries.len() && (#[trigger] entries[j]).1 == JsonModel::List(parts);
    assert(decreases_to!(entries => entries[j]));
    assert(decreases_to!(entries[j] => entries[j].1));
    assert(decreases_to!(JsonModel::List(parts) => parts));
}

/// Every segment of a component without click events carries the inherited one.
pub proof fn law_clicks_are_inherited(
    value: JsonModel,
    click: Option<ClickModel>,
    hover: Option<Seq<char>>,
    lang: Language,
)
    requires
        clickless(value),
    ensures
        forall|i: int|
            0 <= i < segs(value, click, hover, lang).len() ==> (#[trigger] segs(
                value,
                click,
                hover,
                lang,
            )[i]).click == click,
    decreases value,
{
    match value {
        JsonModel::List(parts) => {
            lemma_clicks_are_inherited(parts, click, hover, lang);
        },
        JsonModel::Table(entries) => {
            let h = match hover_text(entries, lang) {
                Some(own) => Some(own),
                None => hover,
            };
            if let Some(parts) = list_entry(entries, "extra"@) {
                lemma_extra_smaller(entries, parts);
                lemma_clicks_are_inherited(parts, click, h, lang);
            }
        },
        _ => {},
    }
}

proof fn lemma_clicks_are_inherited(
    parts: Seq<JsonModel>,
    click: Option<ClickModel>,
    hover: Option<Seq<char>>,
    lang: Language,
)
    requires
        clickless_all(parts),
    ensures
        forall|i: int|
            0 <= i < segs_all(parts, click, hover, lang).len() ==> (#[trigger] segs_all(
                parts,
                click,
                hover,
                lang,
            )[i]).click == click,
    decreases parts,
{
    if parts.len() > 0 {
        lemma_clicks_are_inherited(parts.drop_last(), click, hover, lang);
        law_clicks_are_inherited(parts.last(), click, hover, lang);
    }
}

/// A component with a known click event of its own carries it whatever it inherits: its own
/// text does, and so do its children that have none of theirs. What it inherits has no part
/// in any of its segments.
pub proof fn law_own_clicks_override_inherited_ones(
    entries: Seq<(Seq<char>, JsonModel)>,
    own: ClickModel,
    click: Option<ClickModel>,
    other: Option<ClickModel>,
    hover: Option<Seq<char>>,
    lang: Language,
)
    requires
        click_event(entries) == Some(own),
    ensures
        ({
            let value = JsonModel::Table(entries);
            let list = segs(value, click, hover, lang);
            &&& list == segs(value, other, hover, lang)
            &&& own_text(entries, lang).len() > 0 ==> list.len() > 0 && list[0].text == own_text(
                entries,
                lang,
            ) && list[0].click == Some(own)
            &&& (list_entry(entries, "extra"@) matches Some(parts) ==> clickless_all(parts))
                ==> forall|i: int|
                0 <= i < list.len() ==> (#[trigger] list[i]).click == Some(own)
        }),
{
    let value = JsonModel::Table(entries);
    let list = segs(value, click, hover, lang);
    let h = match hover_text(entries, lang) {
        Some(own) => Some(own),
        None => hover,
    };
    if let Some(parts) = list_entry(entries, "extra"@) {
        if clickless_all(parts) {
            lemma_clicks_are_inherited(parts, Some(own), h, lang);
        }
    }
}

/// A component without a click event of its own takes the inherited one for its own text.
pub proof fn law_components_without_a_click_take_the_inherited_one(
    entries: Seq<(Seq<char>, JsonModel)>,
    click: Option<ClickModel>,
    hover: Option<Seq<char>>,
    lang: Language,
)
    requires
        click_event(entries) is None,
        own_text(entries, lang).len() > 0,
    ensures
        ({
            let list = segs(JsonModel::Table(entries), click, hover, lang);
            list.len() > 0 && list[0].text == own_text(entries, lang) && list[0].click == click
        }),
{
}

/// Every segment of a component without hover texts carries the inherited one.
pub proof fn law_hovers_are_inherited(
    value: JsonModel,
    click: Option<ClickModel>,
    hover: Option<Seq<char>>,
    lang: Language,
)
    requires
        hoverless(value, lang),
    ensures
        forall|i: int|
            0 <= i < segs(value, click, hover, lang).len() ==> (#[trigger] segs(
                value,
                click,
                hover,
                lang,
            )[i]).hover == hover,
    decreases value,
{
    match value {
        JsonModel::List(parts) => {
            lemma_hovers_are_inherited(parts, click, hover, lang);
        },
        JsonModel::Table(entries) => {
            let c = match click_event(entries) {
                Some(own) => Some(own),
                None => click,
            };
            if let Some(parts) = list_entry(entries, "extra"@) {
                lemma_extra_smaller(entries, parts);
                lemma_hovers_are_inherited(parts, c, hover, lang);
            }
        },
        _ => {},
    }
}

proof fn lemma_hovers_are_inherited(
    parts: Seq<JsonModel>,
    click: Option<ClickModel>,
    hover: Option<Seq<char>>,
    lang: Language,
)
    requires
        hoverless_all(parts, lang),
    ensures
        forall|i: int|
            0 <= i < segs_all(parts, click, hover, lang).len() ==> (#[trigger] segs_all(
                parts,
                click,
                hover,
                lang,
            )[i]).hover == hover,
    decreases parts,
{
    if parts.len() > 0 {
        lemma_hovers_are_inherited(parts.drop_last(), click, hover, lang);
        law_hovers_are_inherited(parts.last(), click, hover, lang);
    }
}

/// A component with a hover text of its own shows it whatever it inherits: on its own text,
/// and on its children that have none of theirs.
pub proof fn law_own_hovers_override_inherited_ones(
    entries: Seq<(Seq<char>, JsonModel)>,
    own: Seq<char>,
    click: Option<ClickModel>,
    hover: Option<Seq<char>>,
    other: Option<Seq<char>>,
    lang: Language,
)
    requires
        hover_text(entries, lang) == Some(own),
    ensures
        ({
            let value = JsonModel::Table(entries);
            let list = segs(value, click, hover, lang);
            &&& list == segs(value, click, other, lang)
            &&& own_text(entries, lang).len() > 0 ==> list.len() > 0 && list[0].hover == Some(own)
            &&& (list_entry(entries, "extra"@) matches Some(parts) ==> hoverless_all(parts, lang))
                ==> forall|i: int|
                0 <= i < list.len() ==> (#[trigger] list[i]).hover == Some(own)
        }),
{
    let value = JsonModel::Table(entries);
    let c = match click_event(entries) {
        Some(own) => Some(own),
        None => click,
    };
    if let Some(parts) = list_entry(entries, "extra"@) {
        if hoverless_all(parts, lang) {
            lemma_hovers_are_inherited(parts, c, Some(own), lang);
        }
    }
}

/// A click event is an object with a text value and one of four actions, and is what they
/// say; anything else is none.
pub proof fn law_click_events_are_what_they_name(
    entries: Seq<(Seq<char>, JsonModel)>,
    event: Seq<(Seq<char>, JsonModel)>,
)
    requires
        table_entry(entries, "clickEvent"@) == Some(event),
    ensures
        ({
            let name = text_entry(event, "action"@);
            let value = text_entry(event, "value"@);
            let read = click_event(entries);
            &&& read matches Some(c) ==> value == Some(c.value)
            &&& value is None ==> read is None
            &&& value is Some && name == Some("run_command"@) ==> read is Some
                && read->0.action == ClickAction::RunCommand
            &&& value is Some && name == Some("suggest_command"@) ==> read is Some
                && read->0.action == ClickAction::SuggestCommand
            &&& value is Some && name == Some("open_url"@) ==> read is Some && read->0.action
                == ClickAction::OpenUrl
            &&& value is Some && name == Some("copy_to_clipboard"@) ==> read is Some
                && read->0.action == ClickAction::CopyToClipboard
            &&& name != Some("run_command"@) && name != Some("suggest_command"@) && name != Some(
                "open_url"@,
            ) && name != Some("copy_to_clipboard"@) ==> read is None
        }),
{
    reveal_strlit("run_command");
    reveal_strlit("suggest_command");
    reveal_strlit("open_url");
    reveal_strlit("copy_to_clipboard");
    assert("run_command"@.len() == 11 && "suggest_command"@.len() == 15 && "open_url"@.len() == 8
        && "copy_to_clipboard"@.len() == 17);
}

/// A component without a click event object has no click event.
pub proof fn law_no_object_no_click(entries: Seq<(Seq<char>, JsonModel)>, lang: Language)
    ensures
        table_entry(entries, "clickEvent"@) is None ==> click_event(entries) is None,
        table_entry(entries, "hoverEvent"@) is None ==> hover_text(entries, lang) is None,
{
}

/// Only shown texts are hover texts: the flattened value of the event.
pub proof fn law_hover_texts_are_shown_values(
    entries: Seq<(Seq<char>, JsonModel)>,
    event: Seq<(Seq<char>, JsonModel)>,
    lang: Language,
)
    requires
        table_entry(entries, "hoverEvent"@) == Some(event),
    ensures
        text_entry(event, "action"@) != Some("show_text"@) ==> hover_text(entries, lang) is None,
        text_entry(event, "action"@) == Some("show_text"@) ==> match entry(event, "value"@) {
            Some(value) => hover_text(entries, lang) == Some(flat(value, lang)),
            None => hover_text(entries, lang) is None,
        },
{
}

// ── Text ──────────────────────────────────────────────────────────────────

/// What is not JSON is shown as it came, without events.
pub proof fn law_plain_messages_are_shown_as_they_came(json: Seq<char>, lang: Language)
    requires
        parsed_json(json) is None,
    ensures
        flat_message(json, lang) == json,
        message_segments(json, lang).len() == 1,
        message_segments(json, lang)[0] == (SegmentModel { text: json, click: None, hover: None }),
{
}

/// A text stands for itself, and what is neither text, list nor object shows nothing.
pub proof fn law_texts_stand_for_themselves(value: JsonModel, lang: Language)
    ensures
        value matches JsonModel::Text(s) ==> flat(value, lang) == s,
        value is Null || value is Bool || value is Number ==> flat(value, lang).len() == 0,
{
}

/// A list reads as its parts one after the other: what one more part adds comes last.
pub proof fn law_lists_read_in_order(parts: Seq<JsonModel>, more: JsonModel, lang: Language)
    ensures
        flat(JsonModel::List(parts.push(more)), lang) == flat(JsonModel::List(parts), lang) + flat(
            more,
            lang,
        ),
        flat(JsonModel::List(Seq::empty()), lang).len() == 0,
{
    assert(parts.push(more).drop_last() =~= parts);
}

/// The children of a component follow its own text.
pub proof fn law_children_follow(entries: Seq<(Seq<char>, JsonModel)>, lang: Language)
    ensures
        flat(JsonModel::Table(entries), lang).take(own_text(entries, lang).len() as int)
            == own_text(entries, lang),
        list_entry(entries, "extra"@) matches Some(parts) ==> flat(
            JsonModel::Table(entries),
            lang,
        ).skip(own_text(entries, lang).len() as int) == flat(JsonModel::List(parts), lang),
        list_entry(entries, "extra"@) is None ==> flat(JsonModel::Table(entries), lang)
            == own_text(entries, lang),
{
    let own = own_text(entries, lang);
    let all = flat(JsonModel::Table(entries), lang);
    assert(all.take(own.len() as int) =~= own);
    if let Some(parts) = list_entry(entries, "extra"@) {
        assert(all.skip(own.len() as int) =~= flat_all(parts, lang));
    } else {
        assert(all =~= own);
    }
}

/// A component's own text comes after its style: its translation if it has one, else its
/// text.
pub proof fn law_translations_go_before_texts(entries: Seq<(Seq<char>, JsonModel)>, lang: Language)
    ensures
        ({
            let all = own_text(entries, lang);
            let n = style_of(entries).len() as int;
            let shown = all.skip(n);
            &&& all.take(n) == style_of(entries)
            &&& text_entry(entries, "translate"@) is None && text_entry(entries, "text"@) is None
                ==> shown.len() == 0
            &&& text_entry(entries, "translate"@) is None ==> (text_entry(
                entries,
                "text"@,
            ) matches Some(text) ==> shown == text)
            &&& text_entry(entries, "translate"@) matches Some(key) ==> (list_entry(
                entries,
                "with"@,
            ) is None ==> shown == translation(lang, key, Seq::empty()))
        }),
{
    let all = own_text(entries, lang);
    let n = style_of(entries).len() as int;
    assert(all.take(n) =~= style_of(entries));
    match text_entry(entries, "translate"@) {
        Some(key) => {
            if list_entry(entries, "with"@) is None {
                assert(all.skip(n) =~= translation(lang, key, Seq::empty()));
            }
        },
        None => {
            match text_entry(entries, "text"@) {
                Some(text) => {
                    assert(all.skip(n) =~= text);
                },
                None => {
                    assert(all.skip(n) =~= Seq::empty());
                },
            }
        },
    }
}

/// A known key reads as its filled pattern. An unknown one reads as its arguments, with a
/// space between two, or as itself without any.
pub proof fn law_unknown_keys_show_their_arguments(
    lang: Language,
    key: Seq<char>,
    a: Seq<char>,
    b: Seq<char>,
)
    ensures
        lang.pattern(key) matches Some(pattern) ==> translation(lang, key, seq![a, b]) == filled(
            pattern,
            seq![a, b],
        ),
        lang.pattern(key) is None ==> {
            &&& translation(lang, key, Seq::empty()) == key
            &&& translation(lang, key, seq![a]) == a
            &&& translation(lang, key, seq![a, b]) == a + seq![' '] + b
        },
{
    assert(seq![a, b].drop_last() =~= seq![a]);
    assert(joined(seq![a]) == a);
}

// ── Patterns ──────────────────────────────────────────────────────────────

proof fn lemma_digits_prefix(a: Seq<char>, b: Seq<char>, i: int)
    requires
        0 <= i,
    ensures
        digits_end(a + b, a.len() + i) == a.len() + digits_end(b, i),
    decreases b.len() - i,
{
    if i < b.len() {
        assert((a + b)[a.len() + i] == b[i]);
        if is_digit(b[i]) {
            lemma_digits_prefix(a, b, i + 1);
        }
    }
}

proof fn lemma_digits_value_prefix(a: Seq<char>, b: Seq<char>, from: int, to: int, limit: int)
    requires
        0 <= from,
        to <= b.len(),
    ensures
        crate::chat::lang::digits_value(a + b, a.len() + from, a.len() + to, limit)
            == crate::chat::lang::digits_value(b, from, to, limit),
    decreases to - from,
{
    if from < to {
        lemma_digits_value_prefix(a, b, from, to - 1, limit);
        assert((a + b)[a.len() + to - 1] == b[to - 1]);
    }
}

proof fn lemma_digits_reach(p: Seq<char>, i: int)
    requires
        0 <= i <= p.len(),
    ensures
        i <= digits_end(p, i) <= p.len(),
    decreases p.len() - i,
{
    if i < p.len() && is_digit(p[i]) {
        lemma_digits_reach(p, i + 1);
    }
}

/// What has been filled in has no part in the rest of a pattern.
proof fn lemma_filled_skip(a: Seq<char>, b: Seq<char>, args: Seq<Seq<char>>, i: int, next: int)
    requires
        0 <= i,
    ensures
        filled_from(a + b, args, a.len() + i, next) == filled_from(b, args, i, next),
    decreases b.len() - i,
{
    let p = a + b;
    let n = a.len() as int;
    if i < b.len() {
        assert(p[n + i] == b[i]);
        if i + 1 < b.len() {
            assert(p[n + i + 1] == b[i + 1]);
        }
        lemma_filled_skip(a, b, args, i + 1, next);
        if b[i] == '%' {
            if i + 1 < b.len() {
                lemma_filled_skip(a, b, args, i + 2, next);
                lemma_filled_skip(a, b, args, i + 2, next + 1);
            }
            lemma_digits_prefix(a, b, i + 1);
            lemma_digits_reach(b, i + 1);
            let j = digits_end(b, i + 1);
            assert(digits_end(p, n + (i + 1)) == n + j);
            if j + 1 < b.len() {
                assert(p[n + j] == b[j]);
                assert(p[n + j + 1] == b[j + 1]);
                lemma_filled_skip(a, b, args, j + 2, next);
            }
            lemma_digits_value_prefix(a, b, i + 1, j, args.len() as int + 1);
        }
    }
}

/// What stands before the first percent sign of a pattern stays as it is; `next` is how many
/// arguments are used up.
pub proof fn law_plain_text_of_patterns_stays(
    a: Seq<char>,
    rest: Seq<char>,
    args: Seq<Seq<char>>,
    next: int,
)
    requires
        forall|i: int| 0 <= i < a.len() ==> #[trigger] a[i] != '%',
    ensures
        filled_from(a + rest, args, 0, next) == a + filled_from(rest, args, 0, next),
    decreases a.len(),
{
    if a.len() == 0 {
        assert(a + rest =~= rest);
        assert(a + filled_from(rest, args, 0, next) =~= filled_from(rest, args, 0, next));
    } else {
        let first = seq![a[0]];
        let b = a.drop_first();
        assert forall|i: int| 0 <= i < b.len() implies #[trigger] b[i] != '%' by {
            assert(b[i] == a[i + 1]);
        }
        law_plain_text_of_patterns_stays(b, rest, args, next);
        assert(a + rest =~= first + (b + rest));
        assert((a + rest)[0] == a[0]);
        lemma_filled_skip(first, b + rest, args, 0, next);
        assert(filled_from(a + rest, args, 0, next) == first + filled_from(b + rest, args, 0, next));
        assert(first + (b + filled_from(rest, args, 0, next)) =~= a + filled_from(
            rest,
            args,
            0,
            next,
        ));
    }
}

/// `%s` takes the next argument and uses it up, nothing past the last; `%%` is a percent
/// sign, and uses none.
pub proof fn law_placeholders_take_the_next_argument(
    rest: Seq<char>,
    args: Seq<Seq<char>>,
    next: int,
)
    requires
        next >= 0,
    ensures
        filled_from(seq!['%', 's'] + rest, args, 0, next) == (if next < args.len() {
            args[next]
        } else {
            Seq::empty()
        }) + filled_from(rest, args, 0, next + 1),
        filled_from(seq!['%', '%'] + rest, args, 0, next) == seq!['%'] + filled_from(
            rest,
            args,
            0,
            next,
        ),
{
    lemma_filled_skip(seq!['%', 's'], rest, args, 0, next + 1);
    lemma_filled_skip(seq!['%', '%'], rest, args, 0, next);
    assert((seq!['%', 's'] + rest)[0] == '%' && (seq!['%', 's'] + rest)[1] == 's');
    assert((seq!['%', '%'] + rest)[0] == '%' && (seq!['%', '%'] + rest)[1] == '%');
}

/// A numbered placeholder takes the argument of its number, counted from one, and uses none
/// up.
pub proof fn law_numbered_placeholders_take_their_argument(
    digit: char,
    rest: Seq<char>,
    args: Seq<Seq<char>>,
    next: int,
)
    requires
        '1' <= digit <= '9',
    ensures
        ({
            let k = digit as int - '1' as int;
            filled_from(seq!['%', digit, '$', 's'] + rest, args, 0, next) == (if k < args.len() {
                args[k]
            } else {
                Seq::empty()
            }) + filled_from(rest, args, 0, next)
        }),
{
    let head = seq!['%', digit, '$', 's'];
    let p = head + rest;
    lemma_filled_skip(head, rest, args, 0, next);
    assert(p[0] == '%' && p[1] == digit && p[2] == '$' && p[3] == 's');
    assert(digits_end(p, 2) == 2);
    assert(digits_end(p, 1) == 2);
    let limit = args.len() as int + 1;
    reveal_with_fuel(crate::chat::lang::digits_value, 2);
    let n = digit as int - '0' as int;
    assert(crate::chat::lang::digits_value(p, 1, 2, limit) == if n > limit {
        limit
    } else {
        n
    });
}

// ── Style ─────────────────────────────────────────────────────────────────

/// The number that a color's code stands for, in hexadecimal.
pub open spec fn shade(name: Seq<char>) -> Option<int> {
    match color_code(name) {
        Some(c) => if '0' <= c <= '9' {
            Some(c as int - '0' as int)
        } else if 'a' <= c <= 'f' {
            Some(c as int - 'a' as int + 10)
        } else {
            None
        },
        None => None,
    }
}

/// The sixteen colors: black first and white last, the dark ones in the order of their bits
/// (blue, green and red), and eight after a dark color the light one.
pub proof fn law_light_colors_come_eight_after_dark_ones()
    ensures
        shade("black"@) == Some(0int),
        shade("dark_blue"@) == Some(1int),
        shade("dark_green"@) == Some(2int),
        shade("dark_aqua"@) == Some(1 + 2int),
        shade("dark_red"@) == Some(4int),
        shade("dark_purple"@) == Some(1 + 4int),
        shade("gold"@) == Some(2 + 4int),
        shade("gray"@) == Some(1 + 2 + 4int),
        shade("dark_gray"@) == Some(8 + 0int),
        shade("blue"@) == Some(8 + 1int),
        shade("green"@) == Some(8 + 2int),
        shade("aqua"@) == Some(8 + 1 + 2int),
        shade("red"@) == Some(8 + 4int),
        shade("light_purple"@) == Some(8 + 1 + 4int),
        shade("yellow"@) == Some(8 + 2 + 4int),
        shade("white"@) == Some(8 + 1 + 2 + 4int),
        color_code("reset"@) == Some('r'),
{
    reveal_strlit("black");
    reveal_strlit("dark_blue");
    reveal_strlit("dark_green");
    reveal_strlit("dark_aqua");
    reveal_strlit("dark_red");
    reveal_strlit("dark_purple");
    reveal_strlit("gold");
    reveal_strlit("gray");
    reveal_strlit("dark_gray");
    reveal_strlit("blue");
    reveal_strlit("green");
    reveal_strlit("aqua");
    reveal_strlit("red");
    reveal_strlit("light_purple");
    reveal_strlit("yellow");
    reveal_strlit("white");
    reveal_strlit("reset");
    lemma_names_differ();
    assert("black"@.len() == 5 && "green"@.len() == 5 && "white"@.len() == 5 && "reset"@.len()
        == 5);
    assert("dark_blue"@.len() == 9 && "dark_aqua"@.len() == 9 && "dark_gray"@.len() == 9);
    assert("gold"@.len() == 4 && "gray"@.len() == 4 && "blue"@.len() == 4 && "aqua"@.len() == 4);
    assert("dark_green"@.len() == 10 && "dark_red"@.len() == 8 && "dark_purple"@.len() == 11);
    assert("red"@.len() == 3 && "light_purple"@.len() == 12 && "yellow"@.len() == 6);
}

/// The names of the colors are all different: where two are as long, a letter differs.
proof fn lemma_names_differ()
    ensures
        "black"@ != "green"@ && "black"@ != "white"@ && "black"@ != "reset"@,
        "green"@ != "white"@ && "green"@ != "reset"@ && "white"@ != "reset"@,
        "dark_blue"@ != "dark_aqua"@ && "dark_blue"@ != "dark_gray"@,
        "dark_aqua"@ != "dark_gray"@,
        "gold"@ != "gray"@ && "gold"@ != "blue"@ && "gold"@ != "aqua"@,
        "gray"@ != "blue"@ && "gray"@ != "aqua"@ && "blue"@ != "aqua"@,
{
    reveal_strlit("black");
    reveal_strlit("green");
    reveal_strlit("white");
    reveal_strlit("reset");
    reveal_strlit("dark_blue");
    reveal_strlit("dark_aqua");
    reveal_strlit("dark_gray");
    reveal_strlit("gold");
    reveal_strlit("gray");
    reveal_strlit("blue");
    reveal_strlit("aqua");
    assert("black"@[0] == 'b' && "green"@[0] == 'g' && "white"@[0] == 'w' && "reset"@[0] == 'r');
    assert("dark_blue"@[5] == 'b' && "dark_aqua"@[5] == 'a' && "dark_gray"@[5] == 'g');
    assert("gold"@[1] == 'o' && "gray"@[1] == 'r' && "blue"@[1] == 'l' && "aqua"@[1] == 'q');
}

/// Whether a flag of a component is set.
pub open spec fn set(entries: Seq<(Seq<char>, JsonModel)>, key: Seq<char>) -> bool {
    entry(entries, key) == Some(JsonModel::Bool(true))
}

/// The color of a component, if it names a known one.
pub open spec fn color_of(entries: Seq<(Seq<char>, JsonModel)>) -> Option<char> {
    match text_entry(entries, "color"@) {
        Some(name) => color_code(name),
        None => None,
    }
}

/// The style of a component is its color, and then a code for each flag that is set and for
/// no other: k to o for obfuscated, bold, struck through, underlined and italic text.
pub proof fn law_styles_are_the_color_and_the_flags(entries: Seq<(Seq<char>, JsonModel)>)
    ensures
        ({
            let style = style_of(entries);
            let colored = color_of(entries) is Some;
            &&& colored ==> style.len() >= 2 && style[0] == SECTION && style[1] == color_of(
                entries,
            )->0
            &&& style.len() == 2 * (one_if(colored) + one_if(set(entries, "obfuscated"@)) + one_if(
                set(entries, "bold"@),
            ) + one_if(set(entries, "strikethrough"@)) + one_if(set(entries, "underlined"@))
                + one_if(set(entries, "italic"@)))
            &&& coded(style, 'k') <==> set(entries, "obfuscated"@)
            &&& coded(style, 'l') <==> set(entries, "bold"@)
            &&& coded(style, 'm') <==> set(entries, "strikethrough"@)
            &&& coded(style, 'n') <==> set(entries, "underlined"@)
            &&& coded(style, 'o') <==> set(entries, "italic"@)
        }),
{
    let a = crate::chat::component::color_style(entries);
    let b = crate::chat::component::flag_style(entries, "obfuscated"@, 'k');
    let c = crate::chat::component::flag_style(entries, "bold"@, 'l');
    let d = crate::chat::component::flag_style(entries, "strikethrough"@, 'm');
    let e = crate::chat::component::flag_style(entries, "underlined"@, 'n');
    let f = crate::chat::component::flag_style(entries, "italic"@, 'o');
    let codes = |x: char| coded(a, x) || coded(b, x) || coded(c, x) || coded(d, x) || coded(e, x)
        || coded(f, x);
    assert forall|x: char| #[trigger] coded(style_of(entries), x) == codes(x) by {
        lemma_coded(a, b, x);
        lemma_coded(a + b, c, x);
        lemma_coded(a + b + c, d, x);
        lemma_coded(a + b + c + d, e, x);
        lemma_coded(a + b + c + d + e, f, x);
    }
    lemma_coded_pair(a);
    lemma_coded_pair(b);
    lemma_coded_pair(c);
    lemma_coded_pair(d);
    lemma_coded_pair(e);
    lemma_coded_pair(f);
    assert(codes('k') && codes('l') || true);
    assert(codes('m') && codes('n') && codes('o') || true);
}

/// One for yes, none for no.
pub open spec fn one_if(yes: bool) -> int {
    if yes {
        1
    } else {
        0
    }
}

/// A code is among codes.
pub open spec fn coded(style: Seq<char>, c: char) -> bool {
    exists|i: int| 0 <= i && 2 * i + 1 < style.len() && #[trigger] style[2 * i + 1] == c
}

proof fn lemma_coded(a: Seq<char>, b: Seq<char>, c: char)
    requires
        a.len() % 2 == 0,
    ensures
        coded(a + b, c) == (coded(a, c) || coded(b, c)),
        (a + b).len() % 2 == b.len() % 2,
{
    let n = a.len() as int / 2;
    if coded(a, c) {
        let i = choose|i: int| 0 <= i && 2 * i + 1 < a.len() && #[trigger] a[2 * i + 1] == c;
        assert((a + b)[2 * i + 1] == c);
    }
    if coded(b, c) {
        let i = choose|i: int| 0 <= i && 2 * i + 1 < b.len() && #[trigger] b[2 * i + 1] == c;
        assert((a + b)[2 * (n + i) + 1] == c);
    }
    if coded(a + b, c) {
        let i = choose|i: int|
            0 <= i && 2 * i + 1 < (a + b).len() && #[trigger] (a + b)[2 * i + 1] == c;
        if i < n {
            assert(a[2 * i + 1] == c);
        } else {
            assert(b[2 * (i - n) + 1] == c);
        }
    }
}

proof fn lemma_coded_pair(a: Seq<char>)
    requires
        a.len() == 0 || a.len() == 2,
    ensures
        forall|c: char| #[trigger] coded(a, c) == (a.len() == 2 && a[1] == c),
{
    assert forall|c: char| #[trigger] coded(a, c) == (a.len() == 2 && a[1] == c) by {
        if a.len() == 2 && a[1] == c {
            let i = 0int;
            assert(a[2 * i + 1] == c);
        }
    }
}

// ── Arguments ─────────────────────────────────────────────────────────────

proof fn lemma_flat_each(parts: Seq<JsonModel>, lang: Language)
    ensures
        flat_each(parts, lang).len() == parts.len(),
        forall|i: int|
            0 <= i < parts.len() ==> #[trigger] flat_each(parts, lang)[i] == flat(parts[i], lang),
    decreases parts.len(),
{
    if parts.len() > 0 {
        lemma_flat_each(parts.drop_last(), lang);
        assert forall|i: int| 0 <= i < parts.len() implies #[trigger] flat_each(parts, lang)[i]
            == flat(parts[i], lang) by {
            if i < parts.len() - 1 {
                assert(parts.drop_last()[i] == parts[i]);
                assert(flat_each(parts, lang)[i] == flat_each(parts.drop_last(), lang)[i]);
            }
        }
    }
}

/// A translation is filled with the texts of its components, each in its place.
pub proof fn law_arguments_are_components(
    entries: Seq<(Seq<char>, JsonModel)>,
    lang: Language,
    key: Seq<char>,
    parts: Seq<JsonModel>,
    args: Seq<Seq<char>>,
)
    requires
        text_entry(entries, "translate"@) == Some(key),
        list_entry(entries, "with"@) == Some(parts),
        args.len() == parts.len(),
        forall|i: int| 0 <= i < parts.len() ==> #[trigger] args[i] == flat(parts[i], lang),
    ensures
        own_text(entries, lang).skip(style_of(entries).len() as int) == match lang.pattern(key) {
            Some(pattern) => filled(pattern, args),
            None => if args.len() == 0 {
                key
            } else {
                joined(args)
            },
        },
{
    lemma_flat_each(parts, lang);
    assert(flat_each(parts, lang) =~= args);
    let shown = translation(lang, key, args);
    assert(own_text(entries, lang) == style_of(entries) + shown);
    assert(own_text(entries, lang).skip(style_of(entries).len() as int) =~= shown);
}

/// Joined texts have one space before each but the first.
pub proof fn law_joined_texts_are_spaced(texts: Seq<Seq<char>>, more: Seq<char>)
    ensures
        texts.len() == 0 ==> joined(texts.push(more)) == more,
        texts.len() > 0 ==> joined(texts.push(more)) == joined(texts).push(' ') + more,
{
    assert(texts.push(more).drop_last() =~= texts);
    assert(joined(texts) + seq![' '] =~= joined(texts).push(' '));
}

// ── Entries ───────────────────────────────────────────────────────────────

proof fn lemma_entry_skips(entries: Seq<(Seq<char>, JsonModel)>, key: Seq<char>, from: int, i: int)
    requires
        0 <= from <= i <= entries.len(),
        forall|j: int| from <= j < i ==> (#[trigger] entries[j]).0 != key,
    ensures
        entry_from(entries, key, from) == entry_from(entries, key, i),
    decreases i - from,
{
    if from < i {
        assert(entries[from].0 != key);
        lemma_entry_skips(entries, key, from + 1, i);
    }
}

/// Of several entries under one key the first counts; a key that is not there has none.
pub proof fn law_the_first_entry_counts(entries: Seq<(Seq<char>, JsonModel)>, key: Seq<char>, i: int)
    requires
        0 <= i <= entries.len(),
        forall|j: int| 0 <= j < i ==> (#[trigger] entries[j]).0 != key,
    ensures
        i == entries.len() ==> entry(entries, key) is None,
        i < entries.len() && entries[i].0 == key ==> entry(entries, key) == Some(entries[i].1),
        i < entries.len() && entries[i].0 == key ==> {
            &&& text_entry(entries, key) == match entries[i].1 {
                JsonModel::Text(s) => Some(s),
                _ => None,
            }
            &&& list_entry(entries, key) is Some <==> entries[i].1 is List
            &&& table_entry(entries, key) is Some <==> entries[i].1 is Table
        },
{
    lemma_entry_skips(entries, key, 0, i);
}

} // verus!
