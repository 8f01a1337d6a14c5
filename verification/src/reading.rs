//! What stands in JSON values under names: texts, numbers, flags and lists.

use vstd::prelude::*;

use crate::items::opt_tree;
use crate::json::{array_tree, lemma_array_tree, member, opt_chars, text_of, Json, JsonTree};
use crate::number::{parse_signed, signed_value};
use crate::text::same_text;

verus! {

/// The value under a name; `null` where there is none.
pub open spec fn value_at(tree: JsonTree, key: Seq<char>) -> JsonTree {
    match member(tree, key) {
        Some(value) => value,
        None => JsonTree::Null,
    }
}

/// The value under a name.
pub fn value_in(json: &Json, key: &str) -> (value: Json)
    ensures
        value@ == value_at(json@, key@),
{
    match json.get(key) {
        Some(value) => value.copy(),
        None => Json::Null,
    }
}

/// The value under a name, where there is one that is not `null`.
pub open spec fn some_at(tree: JsonTree, key: Seq<char>) -> Option<JsonTree> {
    match value_at(tree, key) {
        JsonTree::Null => None,
        value => Some(value),
    }
}

/// The value under a name, where there is one that is not `null`.
pub fn some_in(json: &Json, key: &str) -> (value: Option<Json>)
    ensures
        opt_tree(value) == some_at(json@, key@),
{
    match json.get(key) {
        Some(Json::Null) => None,
        Some(value) => Some(value.copy()),
        None => None,
    }
}

/// The text under a name, where there is one.
pub open spec fn opt_text_at(tree: JsonTree, key: Seq<char>) -> Option<Seq<char>> {
    text_of(value_at(tree, key))
}

/// The text under a name, where there is one.
pub fn opt_text_in(json: &Json, key: &str) -> (text: Option<String>)
    ensures
        opt_chars(text) == opt_text_at(json@, key@),
{
    match json.get(key) {
        Some(Json::Text(text)) => Some(text.clone()),
        _ => None,
    }
}

/// The characters of a text; none where the value is something else.
pub open spec fn chars_in(tree: JsonTree) -> Seq<char> {
    match text_of(tree) {
        Some(text) => text,
        None => Seq::empty(),
    }
}

/// The text under a name; an empty one where there is none.
pub open spec fn text_at(tree: JsonTree, key: Seq<char>) -> Seq<char> {
    chars_in(value_at(tree, key))
}

/// The text of a value; an empty one where the value is something else.
pub fn text_from(json: &Json) -> (text: String)
    ensures
        text@ == chars_in(json@),
{
    match json {
        Json::Text(text) => text.clone(),
        _ => String::new(),
    }
}

/// The text under a name.
pub fn text_in(json: &Json, key: &str) -> (text: String)
    ensures
        text@ == text_at(json@, key@),
{
    match json.get(key) {
        Some(value) => text_from(value),
        None => String::new(),
    }
}

/// Whether a value names its kind by this word.
pub open spec fn is_kind(tree: JsonTree, kind: Seq<char>) -> bool {
    text_at(tree, "type"@) == kind
}

/// Whether a value names its kind by this word.
pub fn has_kind(json: &Json, kind: &str) -> (found: bool)
    ensures
        found == is_kind(json@, kind@),
{
    let named = text_in(json, "type");
    same_text(named.as_str(), kind)
}

/// The number under a name, where there is one of sixty-four bits.
pub open spec fn opt_number_at(tree: JsonTree, key: Seq<char>) -> Option<int> {
    match value_at(tree, key) {
        JsonTree::Number(text) => signed_value(text),
        _ => None,
    }
}

/// An optional number.
pub open spec fn opt_int(number: Option<i64>) -> Option<int> {
    match number {
        Some(n) => Some(n as int),
        None => None,
    }
}

/// The number under a name, where there is one of sixty-four bits.
pub fn opt_number_in(json: &Json, key: &str) -> (number: Option<i64>)
    ensures
        opt_int(number) == opt_number_at(json@, key@),
{
    match json.get(key) {
        Some(Json::Number(text)) => parse_signed(text.as_str()),
        _ => None,
    }
}

/// The number under a name; zero where there is none.
pub open spec fn number_at(tree: JsonTree, key: Seq<char>) -> int {
    match opt_number_at(tree, key) {
        Some(n) => n,
        None => 0,
    }
}

/// The number under a name; zero where there is none.
pub fn number_in(json: &Json, key: &str) -> (number: i64)
    ensures
        number == number_at(json@, key@),
{
    match opt_number_in(json, key) {
        Some(n) => n,
        None => 0,
    }
}

/// The flag under a name, where there is one.
pub open spec fn opt_flag_at(tree: JsonTree, key: Seq<char>) -> Option<bool> {
    match value_at(tree, key) {
        JsonTree::Bool(b) => Some(b),
        _ => None,
    }
}

/// The flag under a name, where there is one.
pub fn opt_flag_in(json: &Json, key: &str) -> (flag: Option<bool>)
    ensures
        flag == opt_flag_at(json@, key@),
{
    match json.get(key) {
        Some(Json::Bool(b)) => Some(*b),
        _ => None,
    }
}

/// The flag under a name; false where there is none.
pub open spec fn flag_at(tree: JsonTree, key: Seq<char>) -> bool {
    opt_flag_at(tree, key) == Some(true)
}

/// The flag under a name; false where there is none.
pub fn flag_in(json: &Json, key: &str) -> (flag: bool)
    ensures
        flag == flag_at(json@, key@),
{
    match opt_flag_in(json, key) {
        Some(flag) => flag,
        None => false,
    }
}

/// The entries of a value; none where it is no object.
pub open spec fn entries_of(tree: JsonTree) -> Seq<(Seq<char>, JsonTree)> {
    match tree {
        JsonTree::Object(entries) => entries,
        _ => Seq::empty(),
    }
}

/// The list under a name, where there is one.
pub open spec fn opt_list_at(tree: JsonTree, key: Seq<char>) -> Option<Seq<JsonTree>> {
    match value_at(tree, key) {
        JsonTree::Array(items) => Some(items),
        _ => None,
    }
}

/// The list under a name; an empty one where there is none.
pub open spec fn list_at(tree: JsonTree, key: Seq<char>) -> Seq<JsonTree> {
    match opt_list_at(tree, key) {
        Some(items) => items,
        None => Seq::empty(),
    }
}

/// The list under a name, where there is one.
pub fn list_in<'a>(json: &'a Json, key: &str) -> (items: Option<&'a Vec<Json>>)
    ensures
        match items {
            Some(found) => {
                &&& opt_list_at(json@, key@) == Some(array_tree(found@))
                &&& array_tree(found@).len() == found@.len()
                &&& forall|i: int|
                    0 <= i < found@.len() ==> #[trigger] array_tree(found@)[i] == found@[i]@
            },
            None => opt_list_at(json@, key@) is None,
        },
{
    match json.get(key) {
        Some(Json::Array(items)) => {
            proof {
                lemma_array_tree(items@);
            }
            Some(items)
        },
        _ => None,
    }
}

/// Whether these are the texts of a list, an empty one for each value that is none.
pub open spec fn texts_read(list: Seq<JsonTree>, texts: Seq<String>) -> bool {
    &&& texts.len() == list.len()
    &&& forall|i: int| 0 <= i < list.len() ==> (#[trigger] texts[i])@ == chars_in(list[i])
}

/// Whether these are the texts of the list under a name, where there is one.
pub open spec fn opt_texts_read(
    tree: JsonTree,
    key: Seq<char>,
    texts: Option<Vec<String>>,
) -> bool {
    match opt_list_at(tree, key) {
        Some(list) => texts matches Some(texts) && texts_read(list, texts@),
        None => texts is None,
    }
}

/// The texts of the list under a name, where there is one.
pub fn opt_texts_in(json: &Json, key: &str) -> (texts: Option<Vec<String>>)
    ensures
        opt_texts_read(json@, key@, texts),
{
    match list_in(json, key) {
        Some(items) => {
            let mut texts: Vec<String> = Vec::new();
            let mut i: usize = 0;
            while i < items.len()
                invariant
                    i <= items@.len(),
                    texts@.len() == i,
                    forall|j: int| 0 <= j < i ==> (#[trigger] texts@[j])@ == chars_in(items@[j]@),
                decreases items@.len() - i,
            {
                texts.push(text_from(&items[i]));
                i = i + 1;
            }
            Some(texts)
        },
        None => None,
    }
}

/// The texts of the list under a name; none where there is no list.
pub fn texts_in(json: &Json, key: &str) -> (texts: Vec<String>)
    ensures
        texts_read(list_at(json@, key@), texts@),
{
    match opt_texts_in(json, key) {
        Some(texts) => texts,
        None => Vec::new(),
    }
}

} // verus!
