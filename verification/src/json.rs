//! JSON documents as plain values.
//!
//! The text is read by `serde_json`; what the library works on is the tree
//! below, in which a number is held as the text that writes it.

use crate::text::same_text;
use vstd::prelude::*;

verus! {

/// A JSON value. The members of an object stand in the order in which
/// `serde_json` hands them out.
#[derive(Debug, PartialEq, Eq)]
pub enum JsonValue {
    Null,
    Bool(bool),
    Number(String),
    Text(String),
    Array(Vec<JsonValue>),
    Object(Vec<(String, JsonValue)>),
}

/// What a `JsonValue` stands for: the same tree over texts and sequences.
pub enum JsonTree {
    Null,
    Bool(bool),
    Number(Seq<char>),
    Text(Seq<char>),
    Array(Seq<JsonTree>),
    Object(Seq<(Seq<char>, JsonTree)>),
}

impl View for JsonValue {
    type V = JsonTree;

    open spec fn view(&self) -> JsonTree
        decreases self,
    {
        match self {
            JsonValue::Null => JsonTree::Null,
            JsonValue::Bool(b) => JsonTree::Bool(*b),
            JsonValue::Number(n) => JsonTree::Number(n@),
            JsonValue::Text(t) => JsonTree::Text(t@),
            JsonValue::Array(items) => JsonTree::Array(
                Seq::new(
                    items@.len(),
                    |i: int|
                        if 0 <= i < items@.len() {
                            items@[i]@
                        } else {
                            JsonTree::Null
                        },
                ),
            ),
            JsonValue::Object(members) => JsonTree::Object(
                Seq::new(
                    members@.len(),
                    |i: int|
                        (
                            members@[i].0@,
                            if 0 <= i < members@.len() {
                                members@[i].1@
                            } else {
                                JsonTree::Null
                            },
                        ),
                ),
            ),
        }
    }
}

/// `serde_json::Error`, as it comes: nothing is known of what it holds.
#[verifier::external_type_specification]
#[verifier::external_body]
pub struct ExJsonError(serde_json::Error);

/// `serde_json::Value`, as it comes: nothing is known of what it holds.
#[verifier::external_type_specification]
#[verifier::external_body]
pub struct ExJsonTree(serde_json::Value);

/// The members of an object as trees, in their order.
pub open spec fn member_trees(members: Seq<(String, JsonValue)>) -> Seq<(Seq<char>, JsonTree)> {
    Seq::new(members.len(), |i: int| (members[i].0@, members[i].1@))
}

/// The items of an array as trees, in their order.
pub open spec fn item_trees(items: Seq<JsonValue>) -> Seq<JsonTree> {
    Seq::new(items.len(), |i: int| items[i]@)
}

/// What an object stands for: the object of the trees of its members.
pub proof fn lemma_object_view(members: Vec<(String, JsonValue)>)
    ensures
        JsonValue::Object(members)@ == JsonTree::Object(member_trees(members@)),
{
    let json = JsonValue::Object(members);
    assert(json@->Object_0 =~= member_trees(members@));
}

/// What an array stands for: the array of the trees of its items.
pub proof fn lemma_array_view(items: Vec<JsonValue>)
    ensures
        JsonValue::Array(items)@ == JsonTree::Array(item_trees(items@)),
{
    let json = JsonValue::Array(items);
    assert(json@->Array_0 =~= item_trees(items@));
}

/// The tree that a text denotes as JSON, where it denotes one.
pub uninterp spec fn json_document(text: Seq<char>) -> Option<JsonTree>;

/// The tree of `serde_json::Value` as a `JsonValue`, variant by variant; a
/// number becomes the text that `serde_json` prints for it.
#[verifier::external_body]
fn json_from_tree(tree: &serde_json::Value) -> (json: JsonValue) {
    match tree {
        serde_json::Value::Null => JsonValue::Null,
        serde_json::Value::Bool(b) => JsonValue::Bool(*b),
        serde_json::Value::Number(n) => JsonValue::Number(n.to_string()),
        serde_json::Value::String(s) => JsonValue::Text(s.clone()),
        serde_json::Value::Array(items) => JsonValue::Array(
            items.iter().map(json_from_tree).collect(),
        ),
        serde_json::Value::Object(members) => JsonValue::Object(
            members.iter().map(|(name, value)| (name.clone(), json_from_tree(value))).collect(),
        ),
    }
}

/// `serde_json::from_str` at `serde_json::Value`: the document that `text`
/// denotes, or the parser's error where it denotes none. Whether there is a
/// document, and the tree that it stands for, depend on the characters of
/// `text` alone.
#[verifier::external_body]
pub(crate) fn parse_json(text: &str) -> (parsed: Result<JsonValue, serde_json::Error>)
    ensures
        parsed is Ok <==> json_document(text@) is Some,
        parsed is Ok ==> parsed->Ok_0@ == json_document(text@)->0,
{
    serde_json::from_str::<serde_json::Value>(text).map(|tree| json_from_tree(&tree))
}

/// The message of a `serde_json::Error`, as its `Display` writes it.
#[verifier::external_body]
pub(crate) fn json_error_message(error: &serde_json::Error) -> (message: String) {
    error.to_string()
}

/// The text that `serde_json` writes for a tree, on one line, where it
/// writes one. A number of the tree is first read back from its text, so
/// there is no text for a tree that holds a number which `serde_json` does
/// not read.
pub uninterp spec fn json_text(json: JsonTree) -> Option<Seq<char>>;

/// The text that `serde_json` writes for a tree, indented, where it writes
/// one; numbers are read back as for `json_text`.
pub uninterp spec fn json_pretty_text(json: JsonTree) -> Option<Seq<char>>;

/// A `JsonValue` as the tree of `serde_json::Value`, variant by variant; a
/// number is read back from its text, and a text that writes no JSON number
/// is the parser's error.
#[verifier::external_body]
fn tree_from_json(json: &JsonValue) -> (tree: Result<serde_json::Value, serde_json::Error>) {
    Ok(
        match json {
            JsonValue::Null => serde_json::Value::Null,
            JsonValue::Bool(b) => serde_json::Value::Bool(*b),
            JsonValue::Number(n) => serde_json::Value::Number(serde_json::from_str(n)?),
            JsonValue::Text(s) => serde_json::Value::String(s.clone()),
            JsonValue::Array(items) => serde_json::Value::Array(
                items.iter().map(tree_from_json).collect::<Result<_, _>>()?,
            ),
            JsonValue::Object(members) => serde_json::Value::Object(
                members.iter().map(|(k, v)| tree_from_json(v).map(|t| (k.clone(), t))).collect::<Result<_, _>>()?,
            ),
        },
    )
}

/// `serde_json::to_string` at `serde_json::Value`, on the tree that
/// `tree_from_json` makes of the value: the document on one line, or the
/// error of a number that cannot be read back. The outcome depends on what
/// the value stands for alone.
#[verifier::external_body]
pub(crate) fn write_json(json: &JsonValue) -> (text: Result<String, serde_json::Error>)
    ensures
        text is Ok <==> json_text(json@) is Some,
        text is Ok ==> text->Ok_0@ == json_text(json@)->0,
{
    serde_json::to_string(&tree_from_json(json)?)
}

/// `serde_json::to_string_pretty` at `serde_json::Value`, on the tree that
/// `tree_from_json` makes of the value: the document indented, or the error
/// of a number that cannot be read back. The outcome depends on what the
/// value stands for alone.
#[verifier::external_body]
pub(crate) fn write_json_pretty(json: &JsonValue) -> (text: Result<String, serde_json::Error>)
    ensures
        text is Ok <==> json_pretty_text(json@) is Some,
        text is Ok ==> text->Ok_0@ == json_pretty_text(json@)->0,
{
    serde_json::to_string_pretty(&tree_from_json(json)?)
}

/// The tree of the first member of `members` that is named `name`.
pub open spec fn tree_member(members: Seq<(Seq<char>, JsonTree)>, name: Seq<char>) -> Option<
    JsonTree,
>
    decreases members.len(),
{
    if members.len() == 0 {
        None
    } else if members[0].0 == name {
        Some(members[0].1)
    } else {
        tree_member(members.drop_first(), name)
    }
}

/// Looks up the member named `name`: the first of that name.
pub fn find_member<'a>(members: &'a Vec<(String, JsonValue)>, name: &str) -> (found: Option<
    &'a JsonValue,
>)
    ensures
        found is Some <==> tree_member(member_trees(members@), name@) is Some,
        found is Some ==> found->0@ == tree_member(member_trees(members@), name@)->0,
{
    let ghost trees = member_trees(members@);
    let mut i: usize = 0;
    assert(trees.skip(0) =~= trees);
    while i < members.len()
        invariant
            i <= members.len(),
            trees == member_trees(members@),
            tree_member(trees, name@) == tree_member(trees.skip(i as int), name@),
        decreases members.len() - i,
    {
        assert(trees.skip(i as int).drop_first() =~= trees.skip(i + 1));
        assert(trees.skip(i as int)[0] == (members@[i as int].0@, members@[i as int].1@));
        if same_text(members[i].0.as_str(), name) {
            return Some(&members[i].1);
        }
        i += 1;
    }
    None
}

} // verus!
