//! JSON values as chat components use them, and parsing them.

use vstd::prelude::*;
use crate::text::same_text;

verus! {

/// A JSON value. Numbers carry no meaning in chat components and are not kept.
#[derive(Debug)]
pub enum Json {
    Null,
    Bool(bool),
    Number,
    Text(String),
    List(Vec<Json>),
    Table(Vec<(String, Json)>),
}

/// The mathematical value of a [`Json`].
pub enum JsonModel {
    Null,
    Bool(bool),
    Number,
    Text(Seq<char>),
    List(Seq<JsonModel>),
    Table(Seq<(Seq<char>, JsonModel)>),
}

impl Json {
    pub open spec fn view(self) -> JsonModel
        decreases self,
    {
        match self {
            Json::Null => JsonModel::Null,
            Json::Bool(b) => JsonModel::Bool(b),
            Json::Number => JsonModel::Number,
            Json::Text(s) => JsonModel::Text(s@),
            Json::List(parts) => JsonModel::List(list_view(parts@)),
            Json::Table(entries) => JsonModel::Table(table_view(entries@)),
        }
    }
}

/// The value of a list of JSON values.
pub open spec fn list_view(parts: Seq<Json>) -> Seq<JsonModel>
    decreases parts,
{
    if parts.len() == 0 {
        Seq::empty()
    } else {
        list_view(parts.drop_last()).push(parts.last().view())
    }
}

/// The value of the entries of a JSON object.
pub open spec fn table_view(entries: Seq<(String, Json)>) -> Seq<(Seq<char>, JsonModel)>
    decreases entries,
{
    if entries.len() == 0 {
        Seq::empty()
    } else {
        table_view(entries.drop_last()).push((entries.last().0@, entries.last().1.view()))
    }
}

pub proof fn lemma_list_view(parts: Seq<Json>)
    ensures
        list_view(parts).len() == parts.len(),
        forall|i: int|
            0 <= i < parts.len() ==> #[trigger] list_view(parts)[i] == parts[i].view(),
    decreases parts.len(),
{
    if parts.len() > 0 {
        lemma_list_view(parts.drop_last());
    }
}

pub proof fn lemma_table_view(entries: Seq<(String, Json)>)
    ensures
        table_view(entries).len() == entries.len(),
        forall|i: int|
            0 <= i < entries.len() ==> #[trigger] table_view(entries)[i] == (
                entries[i].0@,
                entries[i].1.view(),
            ),
    decreases entries.len(),
{
    if entries.len() > 0 {
        lemma_table_view(entries.drop_last());
    }
}

// ── Parsing ───────────────────────────────────────────────────────────────

/// The JSON value type of `serde_json`.
#[verifier::external_type_specification]
#[verifier::external_body]
pub struct ExValue(serde_json::Value);

/// The error type of `serde_json`.
#[verifier::external_type_specification]
#[verifier::external_body]
pub struct ExError(serde_json::Error);

/// What a text holds as JSON: the value that `serde_json::from_str` reads from
/// it, or nothing where it reports an error.
pub uninterp spec fn parsed_json(text: Seq<char>) -> Option<JsonModel>;

/// What a `serde_json::Value` holds.
pub uninterp spec fn value_contents(value: serde_json::Value) -> JsonModel;

/// `serde_json::from_str` into a `serde_json::Value`. The result depends on the
/// text alone: a value exactly where the text is JSON.
#[verifier::external_body]
fn read_value(text: &str) -> (value: Result<serde_json::Value, serde_json::Error>)
    ensures
        match value {
            Ok(v) => parsed_json(text@) == Some(value_contents(v)),
            Err(_) => parsed_json(text@) is None,
        },
{
    serde_json::from_str(text)
}

/// A `serde_json::Value` with its outermost layer taken off.
enum Peeled {
    Null,
    Bool(bool),
    Number,
    Text(String),
    List(Vec<serde_json::Value>),
    Table(Vec<(String, serde_json::Value)>),
}

/// What a list of values holds.
spec fn values_contents(values: Seq<serde_json::Value>) -> Seq<JsonModel> {
    Seq::new(values.len(), |i: int| value_contents(values[i]))
}

/// What the entries of an object hold.
spec fn entries_contents(entries: Seq<(String, serde_json::Value)>) -> Seq<(Seq<char>, JsonModel)> {
    Seq::new(entries.len(), |i: int| (entries[i].0@, value_contents(entries[i].1)))
}

/// The variants of `serde_json::Value`, told apart one for one. An array hands its
/// elements out in order, an object its entries in the order in which
/// `serde_json::Map::into_iter` gives them.
#[verifier::external_body]
fn peel(value: serde_json::Value) -> (peeled: Peeled)
    ensures
        value_contents(value) == match peeled {
            Peeled::Null => JsonModel::Null,
            Peeled::Bool(b) => JsonModel::Bool(b),
            Peeled::Number => JsonModel::Number,
            Peeled::Text(s) => JsonModel::Text(s@),
            Peeled::List(parts) => JsonModel::List(values_contents(parts@)),
            Peeled::Table(entries) => JsonModel::Table(entries_contents(entries@)),
        },
{
    match value {
        serde_json::Value::Null => Peeled::Null,
        serde_json::Value::Bool(b) => Peeled::Bool(b),
        serde_json::Value::Number(_) => Peeled::Number,
        serde_json::Value::String(s) => Peeled::Text(s),
        serde_json::Value::Array(parts) => Peeled::List(parts),
        serde_json::Value::Object(entries) => Peeled::Table(entries.into_iter().collect()),
    }
}

/// A `serde_json::Value` as a [`Json`].
fn take_value(value: serde_json::Value) -> (json: Json)
    ensures
        json.view() == value_contents(value),
    decreases value_contents(value),
{
    match peel(value) {
        Peeled::Null => Json::Null,
        Peeled::Bool(b) => Json::Bool(b),
        Peeled::Number => Json::Number,
        Peeled::Text(s) => Json::Text(s),
        Peeled::List(parts) => {
            let ghost all = parts@;
            let ghost contents = values_contents(all);
            let mut left = parts;
            let mut taken: Vec<Json> = Vec::new();
            let ghost mut n: int = 0;
            assert(all.skip(0) =~= all);
            assert(contents.take(0) =~= Seq::empty());
            while left.len() > 0
                invariant
                    0 <= n <= all.len(),
                    left@ == all.skip(n),
                    contents == values_contents(all),
                    value_contents(value) == JsonModel::List(contents),
                    list_view(taken@) == contents.take(n),
                decreases left@.len(),
            {
                let part = left.remove(0);
                assert(part == all[n]);
                assert(contents[n] == value_contents(part));
                assert(decreases_to!(value_contents(value) => value_contents(value)->List_0[n]));
                let json = take_value(part);
                let ghost before = taken@;
                taken.push(json);
                proof {
                    assert(taken@.drop_last() =~= before);
                    n = n + 1;
                    assert(left@ =~= all.skip(n));
                    assert(contents.take(n) =~= contents.take(n - 1).push(contents[n - 1]));
                }
            }
            assert(contents.take(n) =~= contents);
            Json::List(taken)
        },
        Peeled::Table(entries) => {
            let ghost all = entries@;
            let ghost contents = entries_contents(all);
            let mut left = entries;
            let mut taken: Vec<(String, Json)> = Vec::new();
            let ghost mut n: int = 0;
            assert(all.skip(0) =~= all);
            assert(contents.take(0) =~= Seq::empty());
            while left.len() > 0
                invariant
                    0 <= n <= all.len(),
                    left@ == all.skip(n),
                    contents == entries_contents(all),
                    value_contents(value) == JsonModel::Table(contents),
                    table_view(taken@) == contents.take(n),
                decreases left@.len(),
            {
                let (key, part) = left.remove(0);
                assert((key, part) == all[n]);
                assert(contents[n] == (key@, value_contents(part)));
                assert(decreases_to!(value_contents(value) => value_contents(value)->Table_0[n].1));
                let json = take_value(part);
                let ghost before = taken@;
                taken.push((key, json));
                proof {
                    assert(taken@.drop_last() =~= before);
                    n = n + 1;
                    assert(left@ =~= all.skip(n));
                    assert(contents.take(n) =~= contents.take(n - 1).push(contents[n - 1]));
                }
            }
            assert(contents.take(n) =~= contents);
            Json::Table(taken)
        },
    }
}

/// The value of an optional [`Json`].
pub open spec fn json_view(json: Option<Json>) -> Option<JsonModel> {
    match json {
        Some(value) => Some(value.view()),
        None => None,
    }
}

/// Parse a text as JSON.
pub fn parse_json(text: &str) -> (json: Option<Json>)
    ensures
        json_view(json) == parsed_json(text@),
{
    match read_value(text) {
        Ok(value) => Some(take_value(value)),
        Err(_) => None,
    }
}

// ── Looking things up ─────────────────────────────────────────────────────

/// The first entry called `key`, from the `i`-th on.
pub open spec fn entry_from(
    entries: Seq<(Seq<char>, JsonModel)>,
    key: Seq<char>,
    i: int,
) -> Option<JsonModel>
    decreases entries.len() - i,
{
    if i < 0 || i >= entries.len() {
        None
    } else if entries[i].0 == key {
        Some(entries[i].1)
    } else {
        entry_from(entries, key, i + 1)
    }
}

/// The entry called `key` of an object.
pub open spec fn entry(entries: Seq<(Seq<char>, JsonModel)>, key: Seq<char>) -> Option<JsonModel> {
    entry_from(entries, key, 0)
}

/// The text of an entry, if it is there and is text.
pub open spec fn text_entry(entries: Seq<(Seq<char>, JsonModel)>, key: Seq<char>) -> Option<
    Seq<char>,
> {
    match entry(entries, key) {
        Some(JsonModel::Text(s)) => Some(s),
        _ => None,
    }
}

/// The elements of an entry, if it is there and is a list.
pub open spec fn list_entry(entries: Seq<(Seq<char>, JsonModel)>, key: Seq<char>) -> Option<
    Seq<JsonModel>,
> {
    match entry(entries, key) {
        Some(JsonModel::List(parts)) => Some(parts),
        _ => None,
    }
}

/// The entries of an entry, if it is there and is an object.
pub open spec fn table_entry(entries: Seq<(Seq<char>, JsonModel)>, key: Seq<char>) -> Option<
    Seq<(Seq<char>, JsonModel)>,
> {
    match entry(entries, key) {
        Some(JsonModel::Table(inner)) => Some(inner),
        _ => None,
    }
}

/// The entry called `key`, as an index.
pub fn find_key(entries: &Vec<(String, Json)>, key: &str) -> (at: Option<usize>)
    ensures
        match at {
            Some(i) => i < entries@.len() && entry(table_view(entries@), key@) == Some(
                entries@[i as int].1.view(),
            ),
            None => entry(table_view(entries@), key@) is None,
        },
{
    proof {
        lemma_table_view(entries@);
    }
    let mut i: usize = 0;
    while i < entries.len()
        invariant
            i <= entries@.len(),
            table_view(entries@).len() == entries@.len(),
            forall|j: int|
                0 <= j < entries@.len() ==> #[trigger] table_view(entries@)[j] == (
                    entries@[j].0@,
                    entries@[j].1.view(),
                ),
            entry(table_view(entries@), key@) == entry_from(
                table_view(entries@),
                key@,
                i as int,
            ),
        decreases entries@.len() - i,
    {
        if same_text(entries[i].0.as_str(), key) {
            return Some(i);
        }
        i += 1;
    }
    None
}

/// The text of an entry.
pub fn get_text<'a>(entries: &'a Vec<(String, Json)>, key: &str) -> (text: Option<&'a String>)
    ensures
        match text {
            Some(s) => text_entry(table_view(entries@), key@) == Some(s@),
            None => text_entry(table_view(entries@), key@) is None,
        },
{
    match find_key(entries, key) {
        Some(i) => match &entries[i].1 {
            Json::Text(s) => Some(s),
            _ => None,
        },
        None => None,
    }
}

/// Whether an entry is there and is `true`.
pub fn is_true(entries: &Vec<(String, Json)>, key: &str) -> (yes: bool)
    ensures
        yes == (entry(table_view(entries@), key@) == Some(JsonModel::Bool(true))),
{
    match find_key(entries, key) {
        Some(i) => match &entries[i].1 {
            Json::Bool(b) => *b,
            _ => false,
        },
        None => false,
    }
}

} // verus!
