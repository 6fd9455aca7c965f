//! Chat components: flattening them to legacy-coded text, and splitting them
//! into segments that keep their click and hover events.

use vstd::prelude::*;
use crate::chat::json::{
    entry, entry_from, find_key, get_text, is_true, lemma_list_view, list_entry, list_view,
    parse_json, parsed_json, table_entry, table_view, text_entry, Json, JsonModel,
};
use crate::chat::lang::{filled, format_args_str, push_all, texts_view, Language};
use crate::text::{chars_of, copy_text, same_text, text_from};

verus! {

/// The character that introduces a legacy style code.
pub const SECTION: char = '\u{a7}';

/// A click action carried by a chat component.
#[derive(Debug, Clone, Copy, PartialEq, Eq, Structural)]
pub enum ClickAction {
    /// Run the value as a chat command (it already has the leading `/`).
    RunCommand,
    /// Pre-fill the chat input with the value.
    SuggestCommand,
    /// Open the value as a URL in the browser.
    OpenUrl,
    /// Copy the value to the system clipboard.
    CopyToClipboard,
}

/// A click event: an action plus its value.
#[derive(Debug)]
pub struct ClickEvent {
    pub action: ClickAction,
    pub value: String,
}

/// One run of chat text with its legacy style codes, plus the optional click and
/// hover events the open chat screen acts on.
#[derive(Debug, PartialEq, Eq)]
pub struct ChatSegment {
    pub text: String,
    pub click: Option<ClickEvent>,
    /// Flattened hover text.
    pub hover: Option<String>,
}

/// The mathematical value of a [`ClickEvent`].
pub struct ClickModel {
    pub action: ClickAction,
    pub value: Seq<char>,
}

/// The mathematical value of a [`ChatSegment`].
pub struct SegmentModel {
    pub text: Seq<char>,
    pub click: Option<ClickModel>,
    pub hover: Option<Seq<char>>,
}

impl View for ClickEvent {
    type V = ClickModel;

    open spec fn view(&self) -> ClickModel {
        ClickModel { action: self.action, value: self.value@ }
    }
}

pub open spec fn click_view(click: Option<ClickEvent>) -> Option<ClickModel> {
    match click {
        Some(event) => Some(event@),
        None => None,
    }
}

pub open spec fn text_view(text: Option<String>) -> Option<Seq<char>> {
    match text {
        Some(s) => Some(s@),
        None => None,
    }
}

impl View for ChatSegment {
    type V = SegmentModel;

    open spec fn view(&self) -> SegmentModel {
        SegmentModel {
            text: self.text@,
            click: click_view(self.click),
            hover: text_view(self.hover),
        }
    }
}

/// The value of a list of segments.
pub open spec fn segments_view(segments: Seq<ChatSegment>) -> Seq<SegmentModel> {
    Seq::new(segments.len(), |i: int| segments[i]@)
}

impl Clone for ClickEvent {
    fn clone(&self) -> (copy: Self)
        ensures
            copy@ == self@,
    {
        ClickEvent { action: self.action, value: copy_text(self.value.as_str()) }
    }
}

pub fn copy_click(click: &Option<ClickEvent>) -> (copy: Option<ClickEvent>)
    ensures
        click_view(copy) == click_view(*click),
{
    match click {
        Some(event) => Some(event.clone()),
        None => None,
    }
}

pub fn copy_hover(hover: &Option<String>) -> (copy: Option<String>)
    ensures
        text_view(copy) == text_view(*hover),
{
    match hover {
        Some(text) => Some(copy_text(text.as_str())),
        None => None,
    }
}

impl Clone for ChatSegment {
    fn clone(&self) -> (copy: Self)
        ensures
            copy@ == self@,
    {
        ChatSegment {
            text: copy_text(self.text.as_str()),
            click: copy_click(&self.click),
            hover: copy_hover(&self.hover),
        }
    }
}

impl PartialEq for ClickEvent {
    fn eq(&self, other: &Self) -> (same: bool) {
        self.action == other.action && same_text(self.value.as_str(), other.value.as_str())
    }
}

impl vstd::std_specs::cmp::PartialEqSpecImpl for ClickEvent {
    open spec fn obeys_eq_spec() -> bool {
        true
    }

    open spec fn eq_spec(&self, other: &Self) -> bool {
        self@ == other@
    }
}

impl Eq for ClickEvent {

}

// ── Style ─────────────────────────────────────────────────────────────────

/// The legacy code of a color name.
pub open spec fn color_code(name: Seq<char>) -> Option<char> {
    if name == "black"@ {
        Some('0')
    } else if name == "dark_blue"@ {
        Some('1')
    } else if name == "dark_green"@ {
        Some('2')
    } else if name == "dark_aqua"@ {
        Some('3')
    } else if name == "dark_red"@ {
        Some('4')
    } else if name == "dark_purple"@ {
        Some('5')
    } else if name == "gold"@ {
        Some('6')
    } else if name == "gray"@ {
        Some('7')
    } else if name == "dark_gray"@ {
        Some('8')
    } else if name == "blue"@ {
        Some('9')
    } else if name == "green"@ {
        Some('a')
    } else if name == "aqua"@ {
        Some('b')
    } else if name == "red"@ {
        Some('c')
    } else if name == "light_purple"@ {
        Some('d')
    } else if name == "yellow"@ {
        Some('e')
    } else if name == "white"@ {
        Some('f')
    } else if name == "reset"@ {
        Some('r')
    } else {
        None
    }
}

/// A style code as text.
pub open spec fn code(c: char) -> Seq<char> {
    seq![SECTION, c]
}

/// The code for a color entry.
pub open spec fn color_style(entries: Seq<(Seq<char>, JsonModel)>) -> Seq<char> {
    match text_entry(entries, "color"@) {
        Some(name) => match color_code(name) {
            Some(c) => code(c),
            None => Seq::empty(),
        },
        None => Seq::empty(),
    }
}

/// The code for a flag that is set.
pub open spec fn flag_style(entries: Seq<(Seq<char>, JsonModel)>, key: Seq<char>, c: char) -> Seq<
    char,
> {
    if entry(entries, key) == Some(JsonModel::Bool(true)) {
        code(c)
    } else {
        Seq::empty()
    }
}

/// Legacy codes for a component's explicit style, the color first: it clears the
/// other codes.
pub open spec fn style_of(entries: Seq<(Seq<char>, JsonModel)>) -> Seq<char> {
    color_style(entries) + flag_style(entries, "obfuscated"@, 'k') + flag_style(
        entries,
        "bold"@,
        'l',
    ) + flag_style(entries, "strikethrough"@, 'm') + flag_style(entries, "underlined"@, 'n')
        + flag_style(entries, "italic"@, 'o')
}

/// The legacy code of a color name.
pub fn color_name_to_code(name: &str) -> (c: Option<char>)
    ensures
        c == color_code(name@),
{
    if same_text(name, "black") {
        Some('0')
    } else if same_text(name, "dark_blue") {
        Some('1')
    } else if same_text(name, "dark_green") {
        Some('2')
    } else if same_text(name, "dark_aqua") {
        Some('3')
    } else if same_text(name, "dark_red") {
        Some('4')
    } else if same_text(name, "dark_purple") {
        Some('5')
    } else if same_text(name, "gold") {
        Some('6')
    } else if same_text(name, "gray") {
        Some('7')
    } else if same_text(name, "dark_gray") {
        Some('8')
    } else if same_text(name, "blue") {
        Some('9')
    } else if same_text(name, "green") {
        Some('a')
    } else if same_text(name, "aqua") {
        Some('b')
    } else if same_text(name, "red") {
        Some('c')
    } else if same_text(name, "light_purple") {
        Some('d')
    } else if same_text(name, "yellow") {
        Some('e')
    } else if same_text(name, "white") {
        Some('f')
    } else if same_text(name, "reset") {
        Some('r')
    } else {
        None
    }
}

fn push_flag(out: &mut Vec<char>, entries: &Vec<(String, Json)>, key: &str, c: char)
    ensures
        final(out)@ == old(out)@ + flag_style(table_view(entries@), key@, c),
{
    if is_true(entries, key) {
        out.push(SECTION);
        out.push(c);
    }
    assert(out@ =~= old(out)@ + flag_style(table_view(entries@), key@, c));
}

/// Legacy codes for a component's explicit style.
pub fn style_codes(entries: &Vec<(String, Json)>) -> (codes: Vec<char>)
    ensures
        codes@ == style_of(table_view(entries@)),
{
    let mut codes: Vec<char> = Vec::new();
    if let Some(color) = get_text(entries, "color") {
        if let Some(c) = color_name_to_code(color.as_str()) {
            codes.push(SECTION);
            codes.push(c);
        }
    }
    assert(codes@ =~= color_style(table_view(entries@)));
    push_flag(&mut codes, entries, "obfuscated", 'k');
    push_flag(&mut codes, entries, "bold", 'l');
    push_flag(&mut codes, entries, "strikethrough", 'm');
    push_flag(&mut codes, entries, "underlined", 'n');
    push_flag(&mut codes, entries, "italic", 'o');
    codes
}

// ── Translation ───────────────────────────────────────────────────────────

/// Texts joined by single spaces.
pub open spec fn joined(texts: Seq<Seq<char>>) -> Seq<char>
    decreases texts.len(),
{
    if texts.len() == 0 {
        Seq::empty()
    } else if texts.len() == 1 {
        texts[0]
    } else {
        joined(texts.drop_last()) + seq![' '] + texts.last()
    }
}

/// A translation component's text: the filled pattern, or the joined arguments
/// where the key is unknown, or the key itself where there are none.
pub open spec fn translation(lang: Language, key: Seq<char>, args: Seq<Seq<char>>) -> Seq<char> {
    match lang.pattern(key) {
        Some(pattern) => filled(pattern, args),
        None => if args.len() == 0 {
            key
        } else {
            joined(args)
        },
    }
}

/// Resolve a translation component against the language table.
pub fn format_translation(lang: &Language, key: &str, args: &Vec<String>) -> (text: String)
    ensures
        text@ == translation(*lang, key@, texts_view(args@)),
{
    match lang.translate_opt(key) {
        Some(pattern) => format_args_str(pattern.as_str(), args),
        None => {
            if args.len() == 0 {
                return copy_text(key);
            }
            let ghost values = texts_view(args@);
            let mut out: Vec<char> = chars_of(args[0].as_str());
            let mut i: usize = 1;
            assert(values.take(1)[0] == values[0]);
            while i < args.len()
                invariant
                    1 <= i <= args@.len(),
                    values == texts_view(args@),
                    out@ == joined(values.take(i as int)),
                decreases args@.len() - i,
            {
                out.push(' ');
                let more = chars_of(args[i].as_str());
                push_all(&mut out, &more);
                i += 1;
                assert(values.take(i as int).drop_last() =~= values.take(i - 1));
                assert(out@ =~= joined(values.take(i - 1)) + seq![' '] + values[i - 1]);
            }
            assert(values.take(i as int) =~= values);
            text_from(&out)
        },
    }
}

// ── Flattening ────────────────────────────────────────────────────────────

/// An entry of an object is smaller than the object.
pub proof fn lemma_entry_smaller(entries: Seq<(Seq<char>, JsonModel)>, key: Seq<char>, i: int)
    requires
        0 <= i,
    ensures
        entry_from(entries, key, i) matches Some(v) ==> exists|j: int|
            0 <= j < entries.len() && (#[trigger] entries[j]).1 == v,
    decreases entries.len() - i,
{
    if i < entries.len() && entries[i].0 != key {
        lemma_entry_smaller(entries, key, i + 1);
    }
}

/// The legacy-coded text of a component.
pub open spec fn flat(value: JsonModel, lang: Language) -> Seq<char>
    decreases value,
{
    match value {
        JsonModel::Text(s) => s,
        JsonModel::List(parts) => flat_all(parts, lang),
        JsonModel::Table(entries) => own_text(entries, lang) + match list_entry(
            entries,
            "extra"@,
        ) {
            Some(parts) => {
                proof {
                    lemma_entry_smaller(entries, "extra"@, 0);
                    let j = choose|j: int|
                        0 <= j < entries.len() && (#[trigger] entries[j]).1 == JsonModel::List(
                            parts,
                        );
                    assert(decreases_to!(entries => entries[j]));
                    assert(decreases_to!(entries[j] => entries[j].1));
                    assert(decreases_to!(JsonModel::List(parts) => parts));
                }
                flat_all(parts, lang)
            },
            None => Seq::empty(),
        },
        _ => Seq::empty(),
    }
}

/// The texts of components in a row, one after the other.
pub open spec fn flat_all(parts: Seq<JsonModel>, lang: Language) -> Seq<char>
    decreases parts,
{
    if parts.len() == 0 {
        Seq::empty()
    } else {
        flat_all(parts.drop_last(), lang) + flat(parts.last(), lang)
    }
}

/// The text of each of a list of components.
pub open spec fn flat_each(parts: Seq<JsonModel>, lang: Language) -> Seq<Seq<char>>
    decreases parts,
{
    if parts.len() == 0 {
        Seq::empty()
    } else {
        flat_each(parts.drop_last(), lang).push(flat(parts.last(), lang))
    }
}

/// A component's style codes and its own text, without its children.
pub open spec fn own_text(entries: Seq<(Seq<char>, JsonModel)>, lang: Language) -> Seq<char>
    decreases entries,
{
    style_of(entries) + match text_entry(entries, "translate"@) {
        Some(key) => translation(
            lang,
            key,
            match list_entry(entries, "with"@) {
                Some(parts) => {
                    proof {
                        lemma_entry_smaller(entries, "with"@, 0);
                        let j = choose|j: int|
                            0 <= j < entries.len() && (#[trigger] entries[j]).1 == JsonModel::List(
                                parts,
                            );
                        assert(decreases_to!(entries => entries[j]));
                        assert(decreases_to!(entries[j] => entries[j].1));
                        assert(decreases_to!(JsonModel::List(parts) => parts));
                    }
                    flat_each(parts, lang)
                },
                None => Seq::empty(),
            },
        ),
        None => match text_entry(entries, "text"@) {
            Some(text) => text,
            None => Seq::empty(),
        },
    }
}

/// Append a component's legacy-coded text.
pub fn append_component(value: &Json, lang: &Language, out: &mut Vec<char>)
    ensures
        final(out)@ == old(out)@ + flat(value.view(), *lang),
    decreases value,
{
    match value {
        Json::Text(s) => {
            let chars = chars_of(s.as_str());
            push_all(out, &chars);
        },
        Json::List(parts) => {
            append_all(parts, lang, out);
        },
        Json::Table(entries) => {
            let own = own_text_of(entries, lang);
            push_all(out, &own);
            if let Some(i) = find_key(entries, "extra") {
                if let Json::List(parts) = &entries[i].1 {
                    assert(decreases_to!(entries => entries@));
                    assert(decreases_to!(entries@ => entries@[i as int]));
                    assert(decreases_to!(entries@[i as int] => entries@[i as int].1));
                    append_all(parts, lang, out);
                }
            }
        },
        _ => {},
    }
    assert(out@ =~= old(out)@ + flat(value.view(), *lang));
}

/// Append the texts of components in a row.
pub fn append_all(parts: &Vec<Json>, lang: &Language, out: &mut Vec<char>)
    ensures
        final(out)@ == old(out)@ + flat_all(list_view(parts@), *lang),
    decreases parts,
{
    let ghost values = list_view(parts@);
    let ghost before = out@;
    proof {
        lemma_list_view(parts@);
    }
    let mut i: usize = 0;
    assert(out@ =~= before + flat_all(values.take(0), *lang));
    while i < parts.len()
        invariant
            i <= parts@.len(),
            values == list_view(parts@),
            values.len() == parts@.len(),
            forall|j: int|
                0 <= j < parts@.len() ==> #[trigger] list_view(parts@)[j] == parts@[j].view(),
            out@ == before + flat_all(values.take(i as int), *lang),
        decreases parts@.len() - i,
    {
        assert(decreases_to!(parts => parts@));
        assert(decreases_to!(parts@ => parts@[i as int]));
        append_component(&parts[i], lang, out);
        i += 1;
        assert(values.take(i as int).drop_last() =~= values.take(i - 1));
        assert(values.take(i as int).last() == values[i - 1]);
        assert(out@ =~= before + flat_all(values.take(i as int), *lang));
    }
    assert(values.take(i as int) =~= values);
}

/// The text of each of a list of components.
pub fn flatten_each(parts: &Vec<Json>, lang: &Language) -> (texts: Vec<String>)
    ensures
        texts_view(texts@) == flat_each(list_view(parts@), *lang),
    decreases parts,
{
    let ghost values = list_view(parts@);
    proof {
        lemma_list_view(parts@);
    }
    let mut texts: Vec<String> = Vec::new();
    let mut i: usize = 0;
    assert(texts_view(texts@) =~= flat_each(values.take(0), *lang));
    while i < parts.len()
        invariant
            i <= parts@.len(),
            values == list_view(parts@),
            values.len() == parts@.len(),
            forall|j: int|
                0 <= j < parts@.len() ==> #[trigger] list_view(parts@)[j] == parts@[j].view(),
            texts_view(texts@) == flat_each(values.take(i as int), *lang),
        decreases parts@.len() - i,
    {
        let ghost done = texts_view(texts@);
        assert(decreases_to!(parts => parts@));
        assert(decreases_to!(parts@ => parts@[i as int]));
        let mut chars: Vec<char> = Vec::new();
        append_component(&parts[i], lang, &mut chars);
        texts.push(text_from(&chars));
        i += 1;
        assert(values.take(i as int).drop_last() =~= values.take(i - 1));
        assert(values.take(i as int).last() == values[i - 1]);
        assert(chars@ =~= flat(values[i - 1], *lang));
        assert(texts_view(texts@) =~= done.push(chars@));
    }
    assert(values.take(i as int) =~= values);
    texts
}

/// A component's style codes and its own text, without its children.
pub fn own_text_of(entries: &Vec<(String, Json)>, lang: &Language) -> (text: Vec<char>)
    ensures
        text@ == own_text(table_view(entries@), *lang),
    decreases entries,
{
    let mut text = style_codes(entries);
    if let Some(key) = get_text(entries, "translate") {
        let args = match find_key(entries, "with") {
            Some(i) => match &entries[i].1 {
                Json::List(parts) => {
                    assert(decreases_to!(entries => entries@));
                    assert(decreases_to!(entries@ => entries@[i as int]));
                    assert(decreases_to!(entries@[i as int] => entries@[i as int].1));
                    flatten_each(parts, lang)
                },
                _ => Vec::new(),
            },
            None => Vec::new(),
        };
        assert(texts_view(args@) =~= match list_entry(table_view(entries@), "with"@) {
            Some(parts) => flat_each(parts, *lang),
            None => Seq::empty(),
        });
        let own = chars_of(format_translation(lang, key.as_str(), &args).as_str());
        push_all(&mut text, &own);
    } else if let Some(t) = get_text(entries, "text") {
        let own = chars_of(t.as_str());
        push_all(&mut text, &own);
    }
    assert(text@ =~= own_text(table_view(entries@), *lang));
    text
}

/// A parsed component as legacy-coded text.
pub fn flatten_component(value: &Json, lang: &Language) -> (text: String)
    ensures
        text@ == flat(value.view(), *lang),
{
    let mut chars: Vec<char> = Vec::new();
    append_component(value, lang, &mut chars);
    assert(chars@ =~= flat(value.view(), *lang));
    text_from(&chars)
}

/// What a message shows: its component's text, or the raw text where it is not
/// JSON.
pub open spec fn flat_message(json: Seq<char>, lang: Language) -> Seq<char> {
    match parsed_json(json) {
        Some(value) => flat(value, lang),
        None => json,
    }
}

/// Flatten a JSON chat component to text with legacy codes. Falls back to the raw
/// text when it is not valid JSON (some servers send bare legacy text).
pub fn flatten_chat_json(json: &str, lang: &Language) -> (text: String)
    ensures
        text@ == flat_message(json@, *lang),
{
    match parse_json(json) {
        Some(value) => flatten_component(&value, lang),
        None => copy_text(json),
    }
}

// ── Segments ──────────────────────────────────────────────────────────────

/// The action a click event names.
pub open spec fn action_named(name: Seq<char>) -> Option<ClickAction> {
    if name == "run_command"@ {
        Some(ClickAction::RunCommand)
    } else if name == "suggest_command"@ {
        Some(ClickAction::SuggestCommand)
    } else if name == "open_url"@ {
        Some(ClickAction::OpenUrl)
    } else if name == "copy_to_clipboard"@ {
        Some(ClickAction::CopyToClipboard)
    } else {
        None
    }
}

/// A component's own click event: an object with a text value and a known
/// action.
pub open spec fn click_event(entries: Seq<(Seq<char>, JsonModel)>) -> Option<ClickModel> {
    match table_entry(entries, "clickEvent"@) {
        Some(event) => match (text_entry(event, "value"@), text_entry(event, "action"@)) {
            (Some(value), Some(name)) => match action_named(name) {
                Some(action) => Some(ClickModel { action, value }),
                None => None,
            },
            _ => None,
        },
        None => None,
    }
}

/// A component's own hover text.
pub open spec fn hover_text(entries: Seq<(Seq<char>, JsonModel)>, lang: Language) -> Option<
    Seq<char>,
> {
    match table_entry(entries, "hoverEvent"@) {
        Some(event) => if text_entry(event, "action"@) == Some("show_text"@) {
            match entry(event, "value"@) {
                Some(value) => Some(flat(value, lang)),
                None => None,
            }
        } else {
            None
        },
        None => None,
    }
}

/// One segment, unless its text is empty.
pub open spec fn one_segment(text: Seq<char>, click: Option<ClickModel>, hover: Option<Seq<char>>) -> Seq<
    SegmentModel,
> {
    if text.len() == 0 {
        Seq::empty()
    } else {
        seq![SegmentModel { text, click, hover }]
    }
}

/// The segments of a component that inherits these events. A component's own
/// events override the inherited ones for itself and its children.
pub open spec fn segs(
    value: JsonModel,
    click: Option<ClickModel>,
    hover: Option<Seq<char>>,
    lang: Language,
) -> Seq<SegmentModel>
    decreases value,
{
    match value {
        JsonModel::Text(s) => one_segment(s, click, hover),
        JsonModel::List(parts) => segs_all(parts, click, hover, lang),
        JsonModel::Table(entries) => {
            let c = match click_event(entries) {
                Some(own) => Some(own),
                None => click,
            };
            let h = match hover_text(entries, lang) {
                Some(own) => Some(own),
                None => hover,
            };
            one_segment(own_text(entries, lang), c, h) + match list_entry(entries, "extra"@) {
                Some(parts) => {
                    proof {
                        lemma_entry_smaller(entries, "extra"@, 0);
                        let j = choose|j: int|
                            0 <= j < entries.len() && (#[trigger] entries[j]).1 == JsonModel::List(
                                parts,
                            );
                        assert(decreases_to!(entries => entries[j]));
                        assert(decreases_to!(entries[j] => entries[j].1));
                        assert(decreases_to!(JsonModel::List(parts) => parts));
                    }
                    segs_all(parts, c, h, lang)
                },
                None => Seq::empty(),
            }
        },
        _ => Seq::empty(),
    }
}

/// The segments of components in a row.
pub open spec fn segs_all(
    parts: Seq<JsonModel>,
    click: Option<ClickModel>,
    hover: Option<Seq<char>>,
    lang: Language,
) -> Seq<SegmentModel>
    decreases parts,
{
    if parts.len() == 0 {
        Seq::empty()
    } else {
        segs_all(parts.drop_last(), click, hover, lang) + segs(parts.last(), click, hover, lang)
    }
}

/// Append a segment, unless its text is empty.
pub fn push_segment(
    text: String,
    click: &Option<ClickEvent>,
    hover: &Option<String>,
    out: &mut Vec<ChatSegment>,
)
    ensures
        segments_view(final(out)@) == segments_view(old(out)@) + one_segment(
            text@,
            click_view(*click),
            text_view(*hover),
        ),
{
    let ghost value = text@;
    if !text.as_str().is_empty() {
        let segment = ChatSegment { text, click: copy_click(click), hover: copy_hover(hover) };
        out.push(segment);
    }
    assert(segments_view(out@) =~= segments_view(old(out)@) + one_segment(
        value,
        click_view(*click),
        text_view(*hover),
    ));
}

/// A component's own click event. Unknown actions are dropped.
pub fn parse_click_event(entries: &Vec<(String, Json)>) -> (click: Option<ClickEvent>)
    ensures
        click_view(click) == click_event(table_view(entries@)),
{
    let i = match find_key(entries, "clickEvent") {
        Some(i) => i,
        None => {
            return None;
        },
    };
    let event = match &entries[i].1 {
        Json::Table(event) => event,
        _ => {
            return None;
        },
    };
    let value = match get_text(event, "value") {
        Some(value) => value,
        None => {
            return None;
        },
    };
    let name = match get_text(event, "action") {
        Some(name) => name.as_str(),
        None => {
            return None;
        },
    };
    let action = if same_text(name, "run_command") {
        ClickAction::RunCommand
    } else if same_text(name, "suggest_command") {
        ClickAction::SuggestCommand
    } else if same_text(name, "open_url") {
        ClickAction::OpenUrl
    } else if same_text(name, "copy_to_clipboard") {
        ClickAction::CopyToClipboard
    } else {
        return None;
    };
    Some(ClickEvent { action, value: copy_text(value.as_str()) })
}

/// A component's own hover text (only shown text is supported).
pub fn parse_hover_text(entries: &Vec<(String, Json)>, lang: &Language) -> (hover: Option<String>)
    ensures
        text_view(hover) == hover_text(table_view(entries@), *lang),
{
    let i = match find_key(entries, "hoverEvent") {
        Some(i) => i,
        None => {
            return None;
        },
    };
    let event = match &entries[i].1 {
        Json::Table(event) => event,
        _ => {
            return None;
        },
    };
    match get_text(event, "action") {
        Some(name) => {
            if !same_text(name.as_str(), "show_text") {
                return None;
            }
        },
        None => {
            return None;
        },
    }
    match find_key(event, "value") {
        Some(k) => Some(flatten_component(&event[k].1, lang)),
        None => None,
    }
}

/// Append the segments of a component that inherits these events.
pub fn append_segments(
    value: &Json,
    click: &Option<ClickEvent>,
    hover: &Option<String>,
    lang: &Language,
    out: &mut Vec<ChatSegment>,
)
    ensures
        segments_view(final(out)@) == segments_view(old(out)@) + segs(
            value.view(),
            click_view(*click),
            text_view(*hover),
            *lang,
        ),
    decreases value,
{
    match value {
        Json::Text(s) => {
            push_segment(copy_text(s.as_str()), click, hover, out);
        },
        Json::List(parts) => {
            append_segments_all(parts, click, hover, lang, out);
        },
        Json::Table(entries) => {
            let own_click = parse_click_event(entries);
            let own_hover = parse_hover_text(entries, lang);
            let c = if own_click.is_some() {
                own_click
            } else {
                copy_click(click)
            };
            let h = if own_hover.is_some() {
                own_hover
            } else {
                copy_hover(hover)
            };
            let text = own_text_of(entries, lang);
            push_segment(text_from(&text), &c, &h, out);
            if let Some(i) = find_key(entries, "extra") {
                if let Json::List(parts) = &entries[i].1 {
                    assert(decreases_to!(entries => entries@));
                    assert(decreases_to!(entries@ => entries@[i as int]));
                    assert(decreases_to!(entries@[i as int] => entries@[i as int].1));
                    append_segments_all(parts, &c, &h, lang, out);
                }
            }
        },
        _ => {},
    }
    assert(segments_view(out@) =~= segments_view(old(out)@) + segs(
        value.view(),
        click_view(*click),
        text_view(*hover),
        *lang,
    ));
}

/// Append the segments of components in a row.
pub fn append_segments_all(
    parts: &Vec<Json>,
    click: &Option<ClickEvent>,
    hover: &Option<String>,
    lang: &Language,
    out: &mut Vec<ChatSegment>,
)
    ensures
        segments_view(final(out)@) == segments_view(old(out)@) + segs_all(
            list_view(parts@),
            click_view(*click),
            text_view(*hover),
            *lang,
        ),
    decreases parts,
{
    let ghost values = list_view(parts@);
    let ghost before = segments_view(out@);
    let ghost c = click_view(*click);
    let ghost h = text_view(*hover);
    proof {
        lemma_list_view(parts@);
    }
    let mut i: usize = 0;
    assert(segments_view(out@) =~= before + segs_all(values.take(0), c, h, *lang));
    while i < parts.len()
        invariant
            i <= parts@.len(),
            values == list_view(parts@),
            values.len() == parts@.len(),
            c == click_view(*click),
            h == text_view(*hover),
            forall|j: int|
                0 <= j < parts@.len() ==> #[trigger] list_view(parts@)[j] == parts@[j].view(),
            segments_view(out@) == before + segs_all(values.take(i as int), c, h, *lang),
        decreases parts@.len() - i,
    {
        assert(decreases_to!(parts => parts@));
        assert(decreases_to!(parts@ => parts@[i as int]));
        append_segments(&parts[i], click, hover, lang, out);
        i += 1;
        assert(values.take(i as int).drop_last() =~= values.take(i - 1));
        assert(values.take(i as int).last() == values[i - 1]);
        assert(segments_view(out@) =~= before + segs_all(values.take(i as int), c, h, *lang));
    }
    assert(values.take(i as int) =~= values);
}

/// A parsed component as segments.
pub fn component_segments(value: &Json, lang: &Language) -> (segments: Vec<ChatSegment>)
    ensures
        segments_view(segments@) == segs(value.view(), None, None, *lang),
{
    let mut out: Vec<ChatSegment> = Vec::new();
    append_segments(value, &None, &None, lang, &mut out);
    assert(segments_view(out@) =~= segs(value.view(), None, None, *lang));
    out
}

/// The segments of a message: those of its component, or one plain segment with
/// the raw text where it is not JSON.
pub open spec fn message_segments(json: Seq<char>, lang: Language) -> Seq<SegmentModel> {
    match parsed_json(json) {
        Some(value) => segs(value, None, None, lang),
        None => seq![SegmentModel { text: json, click: None, hover: None }],
    }
}

/// Parse a JSON chat component into segments that keep the click and hover events
/// of each run. Falls back to a single plain segment for non-JSON.
pub fn parse_chat_components(json: &str, lang: &Language) -> (segments: Vec<ChatSegment>)
    ensures
        segments_view(segments@) == message_segments(json@, *lang),
{
    match parse_json(json) {
        Some(value) => component_segments(&value, lang),
        None => {
            let mut out: Vec<ChatSegment> = Vec::new();
            out.push(ChatSegment { text: copy_text(json), click: None, hover: None });
            assert(segments_view(out@) =~= message_segments(json@, *lang));
            out
        },
    }
}

// ── Laws ──────────────────────────────────────────────────────────────────

/// The texts of segments, one after the other.
pub open spec fn segments_text(segments: Seq<SegmentModel>) -> Seq<char>
    decreases segments.len(),
{
    if segments.len() == 0 {
        Seq::empty()
    } else {
        segments_text(segments.drop_last()) + segments.last().text
    }
}

pub proof fn lemma_segments_text_concat(a: Seq<SegmentModel>, b: Seq<SegmentModel>)
    ensures
        segments_text(a + b) == segments_text(a) + segments_text(b),
    decreases b.len(),
{
    if b.len() == 0 {
        assert(a + b =~= a);
        assert(segments_text(a) + segments_text(b) =~= segments_text(a));
    } else {
        assert((a + b).drop_last() =~= a + b.drop_last());
        lemma_segments_text_concat(a, b.drop_last());
        assert(segments_text(a + b) =~= segments_text(a) + segments_text(b));
    }
}

proof fn lemma_one_segment_text(text: Seq<char>, click: Option<ClickModel>, hover: Option<Seq<char>>)
    ensures
        segments_text(one_segment(text, click, hover)) == text,
{
    let one = one_segment(text, click, hover);
    if text.len() == 0 {
        assert(segments_text(one) =~= text);
    } else {
        assert(one.drop_last() =~= Seq::empty());
        assert(segments_text(one.drop_last()) =~= Seq::empty());
        assert(segments_text(one) =~= text);
    }
}

/// Splitting a component into segments keeps its text: joined, the segments read
/// exactly as the flattened component, whatever events they inherit.
pub proof fn law_segments_join_to_flat(
    value: JsonModel,
    click: Option<ClickModel>,
    hover: Option<Seq<char>>,
    lang: Language,
)
    ensures
        segments_text(segs(value, click, hover, lang)) == flat(value, lang),
    decreases value,
{
    match value {
        JsonModel::Text(s) => {
            lemma_one_segment_text(s, click, hover);
        },
        JsonModel::List(parts) => {
            lemma_segments_all_join(parts, click, hover, lang);
        },
        JsonModel::Table(entries) => {
            let c = match click_event(entries) {
                Some(own) => Some(own),
                None => click,
            };
            let h = match hover_text(entries, lang) {
                Some(own) => Some(own),
                None => hover,
            };
            let own = one_segment(own_text(entries, lang), c, h);
            lemma_one_segment_text(own_text(entries, lang), c, h);
            match list_entry(entries, "extra"@) {
                Some(parts) => {
                    lemma_entry_smaller(entries, "extra"@, 0);
                    let j = choose|j: int|
                        0 <= j < entries.len() && (#[trigger] entries[j]).1 == JsonModel::List(
                            parts,
                        );
                    assert(decreases_to!(entries => entries[j]));
                    assert(decreases_to!(entries[j] => entries[j].1));
                    assert(decreases_to!(JsonModel::List(parts) => parts));
                    lemma_segments_all_join(parts, c, h, lang);
                    lemma_segments_text_concat(own, segs_all(parts, c, h, lang));
                },
                None => {
                    lemma_segments_text_concat(own, Seq::empty());
                },
            }
        },
        _ => {},
    }
}

proof fn lemma_segments_all_join(
    parts: Seq<JsonModel>,
    click: Option<ClickModel>,
    hover: Option<Seq<char>>,
    lang: Language,
)
    ensures
        segments_text(segs_all(parts, click, hover, lang)) == flat_all(parts, lang),
    decreases parts,
{
    if parts.len() > 0 {
        lemma_segments_all_join(parts.drop_last(), click, hover, lang);
        law_segments_join_to_flat(parts.last(), click, hover, lang);
        lemma_segments_text_concat(
            segs_all(parts.drop_last(), click, hover, lang),
            segs(parts.last(), click, hover, lang),
        );
    }
}

/// The segments of any message, JSON or not, join to its flattened text.
pub proof fn law_message_segments_join_to_flat(json: Seq<char>, lang: Language)
    ensures
        segments_text(message_segments(json, lang)) == flat_message(json, lang),
{
    match parsed_json(json) {
        Some(value) => {
            law_segments_join_to_flat(value, None, None, lang);
        },
        None => {
            let one = message_segments(json, lang);
            assert(one.drop_last() =~= Seq::empty());
            assert(segments_text(one.drop_last()) =~= Seq::empty());
            assert(segments_text(one) =~= json);
        },
    }
}

/// No segment of a component is empty.
pub proof fn law_component_segments_are_not_empty(
    value: JsonModel,
    click: Option<ClickModel>,
    hover: Option<Seq<char>>,
    lang: Language,
)
    ensures
        forall|i: int|
            0 <= i < segs(value, click, hover, lang).len() ==> (#[trigger] segs(
                value,
                click,
                hover,
                lang,
            )[i]).text.len() > 0,
    decreases value,
{
    match value {
        JsonModel::List(parts) => {
            lemma_segments_all_not_empty(parts, click, hover, lang);
        },
        JsonModel::Table(entries) => {
            let c = match click_event(entries) {
                Some(own) => Some(own),
                None => click,
            };
            let h = match hover_text(entries, lang) {
                Some(own) => Some(own),
                None => hover,
            };
            match list_entry(entries, "extra"@) {
                Some(parts) => {
                    lemma_entry_smaller(entries, "extra"@, 0);
                    let j = choose|j: int|
                        0 <= j < entries.len() && (#[trigger] entries[j]).1 == JsonModel::List(
                            parts,
                        );
                    assert(decreases_to!(entries => entries[j]));
                    assert(decreases_to!(entries[j] => entries[j].1));
                    assert(decreases_to!(JsonModel::List(parts) => parts));
                    lemma_segments_all_not_empty(parts, c, h, lang);
                },
                None => {},
            }
        },
        _ => {},
    }
}

proof fn lemma_segments_all_not_empty(
    parts: Seq<JsonModel>,
    click: Option<ClickModel>,
    hover: Option<Seq<char>>,
    lang: Language,
)
    ensures
        forall|i: int|
            0 <= i < segs_all(parts, click, hover, lang).len() ==> (#[trigger] segs_all(
                parts,
                click,
                hover,
                lang,
            )[i]).text.len() > 0,
    decreases parts,
{
    if parts.len() > 0 {
        lemma_segments_all_not_empty(parts.drop_last(), click, hover, lang);
        law_component_segments_are_not_empty(parts.last(), click, hover, lang);
    }
}

} // verus!
