//! JSON values, their compact text, and the names of threads found in them.

use vstd::prelude::*;

use crate::frames::has_break;
use crate::number::padded_hex;
use crate::text::{is_blank, same_text, trimmed, trimmed_non_empty};

verus! {

/// A JSON value. A number is kept as its text, and an object as its entries in their order.
#[derive(Debug)]
pub enum Json {
    /// `null`.
    Null,
    /// `true` or `false`.
    Bool(bool),
    /// A number, by its text.
    Number(String),
    /// A text.
    Text(String),
    /// A list of values.
    Array(Vec<Json>),
    /// Named values.
    Object(Vec<(String, Json)>),
}

/// A JSON value, with texts as characters and lists as sequences.
#[verifier::ext_equal]
pub enum JsonTree {
    /// `null`.
    Null,
    /// `true` or `false`.
    Bool(bool),
    /// A number, by its text.
    Number(Seq<char>),
    /// A text.
    Text(Seq<char>),
    /// A list of values.
    Array(Seq<JsonTree>),
    /// Named values.
    Object(Seq<(Seq<char>, JsonTree)>),
}

/// The tree of a value.
pub open spec fn json_tree(json: Json) -> JsonTree
    decreases json,
{
    match json {
        Json::Null => JsonTree::Null,
        Json::Bool(b) => JsonTree::Bool(b),
        Json::Number(n) => JsonTree::Number(n@),
        Json::Text(t) => JsonTree::Text(t@),
        Json::Array(items) => JsonTree::Array(array_tree(items@)),
        Json::Object(entries) => JsonTree::Object(entries_tree(entries@)),
    }
}

/// The trees of the values of a list.
pub open spec fn array_tree(items: Seq<Json>) -> Seq<JsonTree>
    decreases items,
{
    if items.len() == 0 {
        Seq::empty()
    } else {
        array_tree(items.drop_last()).push(json_tree(items.last()))
    }
}

/// The trees of named values.
pub open spec fn entries_tree(entries: Seq<(String, Json)>) -> Seq<(Seq<char>, JsonTree)>
    decreases entries,
{
    if entries.len() == 0 {
        Seq::empty()
    } else {
        entries_tree(entries.drop_last()).push(
            (entries.last().0@, json_tree(entries.last().1)),
        )
    }
}

impl View for Json {
    type V = JsonTree;

    open spec fn view(&self) -> JsonTree {
        json_tree(*self)
    }
}

/// The trees of a list stand in the order of its values.
pub proof fn lemma_array_tree(items: Seq<Json>)
    ensures
        array_tree(items).len() == items.len(),
        forall|i: int| 0 <= i < items.len() ==> #[trigger] array_tree(items)[i] == json_tree(items[i]),
    decreases items.len(),
{
    if items.len() > 0 {
        lemma_array_tree(items.drop_last());
    }
}

/// The trees of named values stand in the order of the entries, under their names.
pub proof fn lemma_entries_tree(entries: Seq<(String, Json)>)
    ensures
        entries_tree(entries).len() == entries.len(),
        forall|i: int|
            0 <= i < entries.len() ==> #[trigger] entries_tree(entries)[i] == (
                entries[i].0@,
                json_tree(entries[i].1),
            ),
    decreases entries.len(),
{
    if entries.len() > 0 {
        lemma_entries_tree(entries.drop_last());
    }
}

/// The position of the first entry with a name, or the number of entries where there is none.
pub open spec fn entry_index(entries: Seq<(Seq<char>, JsonTree)>, key: Seq<char>) -> int
    decreases entries.len(),
{
    if entries.len() == 0 {
        0
    } else if entries[0].0 == key {
        0
    } else {
        1 + entry_index(entries.drop_first(), key)
    }
}

/// The value under a name, where the value is an object that has one.
pub open spec fn member(tree: JsonTree, key: Seq<char>) -> Option<JsonTree> {
    match tree {
        JsonTree::Object(entries) => if entry_index(entries, key) < entries.len() {
            Some(entries[entry_index(entries, key)].1)
        } else {
            None
        },
        _ => None,
    }
}

/// Where [`entry_index`] stops is the first entry with the name.
proof fn lemma_entry_index(entries: Seq<(Seq<char>, JsonTree)>, key: Seq<char>, at: int)
    requires
        0 <= at <= entries.len(),
        forall|i: int| 0 <= i < at ==> #[trigger] entries[i].0 != key,
        at < entries.len() ==> entries[at].0 == key,
    ensures
        entry_index(entries, key) == at,
    decreases entries.len(),
{
    if entries.len() > 0 && at > 0 {
        assert(entries[0].0 != key);
        let rest = entries.drop_first();
        assert forall|i: int| 0 <= i < at - 1 implies #[trigger] rest[i].0 != key by {
            assert(entries[i + 1].0 != key);
        }
        lemma_entry_index(rest, key, at - 1);
    }
}

/// The value under a name is that of the first entry with the name, and there is none where no
/// entry has it.
pub proof fn law_member_is_the_first_entry(
    entries: Seq<(Seq<char>, JsonTree)>,
    key: Seq<char>,
    at: int,
)
    requires
        0 <= at <= entries.len(),
        forall|i: int| 0 <= i < at ==> #[trigger] entries[i].0 != key,
        at < entries.len() ==> entries[at].0 == key,
    ensures
        at < entries.len() ==> member(JsonTree::Object(entries), key) == Some(entries[at].1),
        at == entries.len() ==> member(JsonTree::Object(entries), key) is None,
{
    lemma_entry_index(entries, key, at);
}

impl Json {
    /// The value under a name, where this is an object that has one.
    pub fn get(&self, key: &str) -> (value: Option<&Json>)
        ensures
            (match value {
                Some(v) => Some(v@),
                None => None,
            }) == member(self@, key@),
            value matches Some(v) ==> decreases_to!(*self => *v),
    {
        match self {
            Json::Object(entries) => {
                let mut i: usize = 0;
                proof {
                    lemma_entries_tree(entries@);
                }
                while i < entries.len()
                    invariant
                        self@ == JsonTree::Object(entries_tree(entries@)),
                        *self is Object,
                        self->Object_0 == *entries,
                        i <= entries@.len(),
                        entries_tree(entries@).len() == entries@.len(),
                        forall|j: int|
                            0 <= j < entries@.len() ==> #[trigger] entries_tree(entries@)[j] == (
                                entries@[j].0@,
                                json_tree(entries@[j].1),
                            ),
                        forall|j: int|
                            0 <= j < i ==> #[trigger] entries_tree(entries@)[j].0 != key@,
                    decreases entries@.len() - i,
                {
                    if same_text(entries[i].0.as_str(), key) {
                        proof {
                            lemma_entry_index(entries_tree(entries@), key@, i as int);
                            assert(decreases_to!(*self => self->Object_0));
                            assert(decreases_to!(*entries => entries@));
                            assert(decreases_to!(entries@ => entries@[i as int]));
                            assert(decreases_to!(entries@[i as int] => entries@[i as int].1));
                        }
                        return Some(&entries[i].1);
                    }
                    i = i + 1;
                }
                proof {
                    lemma_entry_index(entries_tree(entries@), key@, i as int);
                }
                None
            },
            _ => None,
        }
    }

    /// The text, where this is one.
    pub fn as_str(&self) -> (text: Option<&str>)
        ensures
            (match text {
                Some(t) => Some(t@),
                None => None,
            }) == text_of(self@),
    {
        match self {
            Json::Text(text) => Some(text.as_str()),
            _ => None,
        }
    }

    /// Another value with the same tree.
    pub fn copy(&self) -> (json: Json)
        ensures
            json@ == self@,
        decreases *self,
    {
        match self {
            Json::Null => Json::Null,
            Json::Bool(b) => Json::Bool(*b),
            Json::Number(n) => Json::Number(n.clone()),
            Json::Text(t) => Json::Text(t.clone()),
            Json::Array(items) => {
                let mut copies: Vec<Json> = Vec::new();
                let mut i: usize = 0;
                while i < items.len()
                    invariant
                        *self is Array,
                        self->Array_0 == *items,
                        i <= items@.len(),
                        copies@.len() == i,
                        forall|j: int| 0 <= j < i ==> #[trigger] copies@[j]@ == items@[j]@,
                    decreases items@.len() - i,
                {
                    proof {
                        assert(decreases_to!(*self => self->Array_0));
                        assert(decreases_to!(*items => items@));
                        assert(decreases_to!(items@ => items@[i as int]));
                    }
                    copies.push(items[i].copy());
                    i = i + 1;
                }
                proof {
                    lemma_array_tree(items@);
                    lemma_array_tree(copies@);
                    assert forall|j: int| 0 <= j < items@.len() implies #[trigger] array_tree(items@)[j]
                        == array_tree(copies@)[j] by {
                        assert(copies@[j]@ == items@[j]@);
                    }
                    assert(array_tree(items@) =~= array_tree(copies@));
                }
                Json::Array(copies)
            },
            Json::Object(entries) => {
                let mut copies: Vec<(String, Json)> = Vec::new();
                let mut i: usize = 0;
                while i < entries.len()
                    invariant
                        *self is Object,
                        self->Object_0 == *entries,
                        i <= entries@.len(),
                        copies@.len() == i,
                        forall|j: int|
                            0 <= j < i ==> #[trigger] copies@[j].0@ == entries@[j].0@
                                && copies@[j].1@ == entries@[j].1@,
                    decreases entries@.len() - i,
                {
                    proof {
                        assert(decreases_to!(*self => self->Object_0));
                        assert(decreases_to!(*entries => entries@));
                        assert(decreases_to!(entries@ => entries@[i as int]));
                        assert(decreases_to!(entries@[i as int] => entries@[i as int].1));
                    }
                    copies.push((entries[i].0.clone(), entries[i].1.copy()));
                    i = i + 1;
                }
                proof {
                    lemma_entries_tree(entries@);
                    lemma_entries_tree(copies@);
                    assert forall|j: int| 0 <= j < entries@.len() implies #[trigger] entries_tree(entries@)[j]
                        == entries_tree(copies@)[j] by {
                        assert(copies@[j].0@ == entries@[j].0@);
                    }
                    assert(entries_tree(entries@) =~= entries_tree(copies@));
                }
                Json::Object(copies)
            },
        }
    }
}

/// The characters of a tree that is a text.
pub open spec fn text_of(tree: JsonTree) -> Option<Seq<char>> {
    match tree {
        JsonTree::Text(text) => Some(text),
        _ => None,
    }
}

/// A value of one entry.
pub fn object1(key: &str, value: Json) -> (json: Json)
    ensures
        json@ == JsonTree::Object(seq![(key@, value@)]),
{
    let mut entries: Vec<(String, Json)> = Vec::new();
    entries.push((key.to_owned(), value));
    proof {
        lemma_entries_tree(entries@);
        assert(entries_tree(entries@) =~= seq![(key@, value@)]);
    }
    Json::Object(entries)
}

/// A value of two entries.
pub fn object2(key: &str, value: Json, key2: &str, value2: Json) -> (json: Json)
    ensures
        json@ == JsonTree::Object(seq![(key@, value@), (key2@, value2@)]),
{
    let mut entries: Vec<(String, Json)> = Vec::new();
    entries.push((key.to_owned(), value));
    entries.push((key2.to_owned(), value2));
    proof {
        lemma_entries_tree(entries@);
        assert(entries_tree(entries@) =~= seq![(key@, value@), (key2@, value2@)]);
    }
    Json::Object(entries)
}

/// A text value.
pub fn text_value(text: &str) -> (json: Json)
    ensures
        json@ == JsonTree::Text(text@),
{
    Json::Text(text.to_owned())
}

/// A list of text values.
pub fn text_array(texts: &Vec<String>) -> (json: Json)
    ensures
        json@ == JsonTree::Array(crate::text::views(texts@).map_values(|t: Seq<char>| JsonTree::Text(t))),
{
    let mut items: Vec<Json> = Vec::new();
    let mut i: usize = 0;
    while i < texts.len()
        invariant
            i <= texts@.len(),
            items@.len() == i,
            forall|j: int| 0 <= j < i ==> #[trigger] items@[j]@ == JsonTree::Text(texts@[j]@),
        decreases texts@.len() - i,
    {
        items.push(Json::Text(texts[i].clone()));
        i = i + 1;
    }
    proof {
        lemma_array_tree(items@);
        let texts = crate::text::views(texts@).map_values(|t: Seq<char>| JsonTree::Text(t));
        assert forall|j: int| 0 <= j < items@.len() implies #[trigger] array_tree(items@)[j]
            == texts[j] by {
            assert(items@[j]@ == texts[j]);
        }
        assert(array_tree(items@) =~= texts);
    }
    Json::Array(items)
}

/// How a character stands inside a quoted JSON text.
pub open spec fn escaped(c: char) -> Seq<char> {
    if c == '"' {
        seq!['\\', '"']
    } else if c == '\\' {
        seq!['\\', '\\']
    } else if c == '\u{8}' {
        seq!['\\', 'b']
    } else if c == '\u{c}' {
        seq!['\\', 'f']
    } else if c == '\n' {
        seq!['\\', 'n']
    } else if c == '\r' {
        seq!['\\', 'r']
    } else if c == '\t' {
        seq!['\\', 't']
    } else if (c as nat) < 32 {
        seq!['\\', 'u', '0', '0'] + padded_hex(c as nat, 2)
    } else {
        seq![c]
    }
}

/// The characters of a text as they stand inside a quoted JSON text.
pub open spec fn escaped_text(s: Seq<char>) -> Seq<char>
    decreases s.len(),
{
    if s.len() == 0 {
        Seq::empty()
    } else {
        escaped_text(s.drop_last()) + escaped(s.last())
    }
}

/// A text as a quoted JSON text.
pub open spec fn quoted(s: Seq<char>) -> Seq<char> {
    seq!['"'] + escaped_text(s) + seq!['"']
}

/// `serde_json::to_string` of a text writes the text between double quotes, with quotes, back
/// slashes and control characters escaped and every other character as it is. It does not fail
/// on a text.
#[verifier::external_body]
pub(crate) fn quote(text: &str) -> (written: Result<String, serde_json::Error>)
    ensures
        written is Ok,
        written->Ok_0@ == quoted(text@),
{
    serde_json::to_string(text)
}

/// The error of the crate `serde_json`.
#[verifier::external_type_specification]
#[verifier::external_body]
pub struct ExSerdeJsonError(serde_json::Error);

/// The quoted JSON text of a text; the text itself where it cannot be written.
pub fn quoted_text(text: &str) -> (json: String)
    ensures
        json@ == quoted(text@),
{
    match quote(text) {
        Ok(json) => json,
        Err(_) => text.to_owned(),
    }
}

/// A value of the crate `serde_json`.
#[verifier::external_type_specification]
#[verifier::external_body]
pub struct ExSerdeJsonValue(serde_json::Value);

/// Turns a `serde_json::Value` into a value of this library, variant by variant. A number is kept
/// as the text that it is written as, and the entries of an object in the order in which they
/// stand there. The outside value is opaque, so nothing is claimed of the result here: the calls
/// that hand such values out name what they give.
#[verifier::external_body]
pub(crate) fn json_of(value: serde_json::Value) -> (json: Json) {
    match value {
        serde_json::Value::Null => Json::Null,
        serde_json::Value::Bool(b) => Json::Bool(b),
        serde_json::Value::Number(n) => Json::Number(n.to_string()),
        serde_json::Value::String(s) => Json::Text(s),
        serde_json::Value::Array(items) => Json::Array(items.into_iter().map(json_of).collect()),
        serde_json::Value::Object(entries) => Json::Object(
            entries.into_iter().map(|(key, value)| (key, json_of(value))).collect(),
        ),
    }
}

/// Turns a value of this library into a `serde_json::Value`, variant by variant; the text of a
/// number is read by `serde_json::from_str`, and one that is no number becomes `null`. The outside
/// value is opaque, so nothing is claimed of the result here: the calls that take such values name
/// what they make of them.
#[verifier::external_body]
pub(crate) fn value_of(json: &Json) -> (value: serde_json::Value) {
    match json {
        Json::Null => serde_json::Value::Null,
        Json::Bool(b) => serde_json::Value::Bool(*b),
        Json::Number(n) => serde_json::from_str(n).unwrap_or(serde_json::Value::Null),
        Json::Text(s) => serde_json::Value::String(s.clone()),
        Json::Array(items) => serde_json::Value::Array(items.iter().map(value_of).collect()),
        Json::Object(entries) => serde_json::Value::Object(
            entries.iter().map(|(key, value)| (key.clone(), value_of(value))).collect(),
        ),
    }
}

/// The compact JSON text that `serde_json::to_string` writes of a value.
pub uninterp spec fn json_text(tree: JsonTree) -> Seq<char>;

/// `serde_json::to_string` writes a value as compact JSON text. It does not fail on a
/// `serde_json::Value`, whose keys are texts. The text holds no end of a line: nothing stands
/// between its parts, and inside texts control characters are escaped. What else the text is like is
/// not stated.
#[verifier::external_body]
pub(crate) fn write_json(json: &Json) -> (written: Result<String, serde_json::Error>)
    ensures
        written is Ok,
        written->Ok_0@ == json_text(json@),
        !has_break(written->Ok_0@),
{
    serde_json::to_string(&value_of(json))
}

/// The compact JSON text of a value.
pub fn to_json_text(json: &Json) -> (text: String)
    ensures
        text@ == json_text(json@),
        !has_break(text@),
{
    match write_json(json) {
        Ok(text) => text,
        Err(_) => String::new(),
    }
}

/// How a value is shown: a text as it is, another value by its JSON text.
pub open spec fn display(tree: JsonTree) -> Seq<char> {
    match tree {
        JsonTree::Text(text) => text,
        _ => json_text(tree),
    }
}

/// How a value is shown.
pub fn json_display(value: &Json) -> (text: String)
    ensures
        text@ == display(value@),
{
    match value {
        Json::Text(text) => text.clone(),
        _ => to_json_text(value),
    }
}

/// A name that stands under a key, without white space around it.
pub open spec fn named(tree: JsonTree, key: Seq<char>) -> Option<Seq<char>> {
    match member(tree, key) {
        Some(value) => text_of(value),
        None => None,
    }
}

/// The first text that stands under one of the keys, without white space around it; nothing where
/// that text is blank.
pub open spec fn string_field_of(tree: JsonTree, keys: Seq<Seq<char>>) -> Option<Seq<char>>
    decreases keys.len(),
{
    if keys.len() == 0 {
        None
    } else {
        match named(tree, keys[0]) {
            Some(text) => if is_blank(text) {
                None
            } else {
                Some(trimmed(text))
            },
            None => string_field_of(tree, keys.drop_first()),
        }
    }
}

/// An optional text by its characters.
pub open spec fn opt_chars(text: Option<String>) -> Option<Seq<char>> {
    match text {
        Some(t) => Some(t@),
        None => None,
    }
}

/// The characters of the texts of a list.
pub open spec fn str_views(keys: Seq<&str>) -> Seq<Seq<char>> {
    keys.map_values(|key: &str| key@)
}

/// The first text that stands under one of the keys.
pub fn string_field(value: &Json, keys: &Vec<&str>) -> (text: Option<String>)
    ensures
        opt_chars(text) == string_field_of(value@, str_views(keys@)),
{
    let mut i: usize = 0;
    proof {
        assert(str_views(keys@).skip(0) == str_views(keys@));
    }
    while i < keys.len()
        invariant
            i <= keys@.len(),
            string_field_of(value@, str_views(keys@)) == string_field_of(
                value@,
                str_views(keys@).skip(i as int),
            ),
        decreases keys@.len() - i,
    {
        proof {
            let rest = str_views(keys@).skip(i as int);
            assert(rest[0] == keys@[i as int]@);
            assert(rest.drop_first() == str_views(keys@).skip(i + 1));
        }
        match value.get(keys[i]) {
            Some(found) => match found.as_str() {
                Some(text) => {
                    return match trimmed_non_empty(text) {
                        Some(name) => Some(name.to_owned()),
                        None => None,
                    };
                },
                None => {},
            },
            None => {},
        }
        i = i + 1;
    }
    None
}

/// The keys under which a message names its thread.
pub open spec fn thread_keys() -> Seq<Seq<char>> {
    seq!["threadId"@, "thread_id"@, "conversationId"@, "conversation_id"@]
}

/// The keys under which a thread names itself.
pub open spec fn own_thread_keys() -> Seq<Seq<char>> {
    seq!["id"@, "threadId"@, "thread_id"@]
}

/// The keys under which a message names its turn.
pub open spec fn turn_keys() -> Seq<Seq<char>> {
    seq!["turnId"@, "turn_id"@]
}

/// The thread that a value names: under one of the thread keys, else in its entry `thread`, which
/// is a name or holds one, else in its entry `_meta`.
pub open spec fn native_thread_of(tree: JsonTree) -> Option<Seq<char>>
    decreases tree,
{
    match string_field_of(tree, thread_keys()) {
        Some(name) => Some(name),
        None => match nested_thread_of(tree) {
            Some(name) => Some(name),
            None => match tree {
                JsonTree::Object(entries) => {
                    let i = entry_index(entries, "_meta"@);
                    if 0 <= i < entries.len() {
                        native_thread_of(entries[i].1)
                    } else {
                        None
                    }
                },
                _ => None,
            },
        },
    }
}

/// The thread that a value names in its entry `thread`.
pub open spec fn nested_thread_of(tree: JsonTree) -> Option<Seq<char>> {
    match member(tree, "thread"@) {
        Some(thread) => match text_of(thread) {
            Some(text) => if is_blank(text) {
                string_field_of(thread, own_thread_keys())
            } else {
                Some(trimmed(text))
            },
            None => string_field_of(thread, own_thread_keys()),
        },
        None => None,
    }
}

/// The thread that a value names.
pub fn native_thread_id_from_value(value: &Json) -> (name: Option<String>)
    ensures
        opt_chars(name) == native_thread_of(value@),
    decreases *value,
{
    let keys: Vec<&str> = vec!["threadId", "thread_id", "conversationId", "conversation_id"];
    proof {
        assert(str_views(keys@) =~= thread_keys());
    }
    let name = string_field(value, &keys);
    if name.is_some() {
        return name;
    }
    match value.get("thread") {
        Some(thread) => {
            match thread.as_str() {
                Some(text) => match trimmed_non_empty(text) {
                    Some(name) => {
                        return Some(name.to_owned());
                    },
                    None => {},
                },
                None => {},
            }
            let own: Vec<&str> = vec!["id", "threadId", "thread_id"];
            proof {
                assert(str_views(own@) =~= own_thread_keys());
            }
            let name = string_field(thread, &own);
            if name.is_some() {
                return name;
            }
        },
        None => {},
    }
    proof {
        lemma_entry_index_range(value@, "_meta"@);
    }
    match value.get("_meta") {
        Some(meta) => native_thread_id_from_value(meta),
        None => None,
    }
}

proof fn lemma_entry_index_nonneg(entries: Seq<(Seq<char>, JsonTree)>, key: Seq<char>)
    ensures
        0 <= entry_index(entries, key) <= entries.len(),
    decreases entries.len(),
{
    if entries.len() > 0 && entries[0].0 != key {
        lemma_entry_index_nonneg(entries.drop_first(), key);
    }
}

proof fn lemma_entry_index_range(tree: JsonTree, key: Seq<char>)
    ensures
        tree matches JsonTree::Object(entries) ==> 0 <= entry_index(entries, key) <= entries.len(),
{
    match tree {
        JsonTree::Object(entries) => {
            lemma_entry_index_nonneg(entries, key);
        },
        _ => {},
    }
}

/// The text under one of the keys, of the value itself or else of its entry `_meta`.
pub open spec fn string_field_or_meta_of(tree: JsonTree, keys: Seq<Seq<char>>) -> Option<Seq<char>> {
    match string_field_of(tree, keys) {
        Some(text) => Some(text),
        None => match member(tree, "_meta"@) {
            Some(meta) => string_field_of(meta, keys),
            None => None,
        },
    }
}

/// The text under one of the keys, of the value itself or else of its entry `_meta`.
pub fn string_field_or_meta(value: &Json, keys: &Vec<&str>) -> (text: Option<String>)
    ensures
        opt_chars(text) == string_field_or_meta_of(value@, str_views(keys@)),
{
    let found = string_field(value, keys);
    if found.is_some() {
        return found;
    }
    match value.get("_meta") {
        Some(meta) => string_field(meta, keys),
        None => None,
    }
}

} // verus!
