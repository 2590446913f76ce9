//! The text of a document: JSON, written by `serde_json`.
//!
//! A document is first turned into a `serde_json::Value`, part by part, and
//! then printed. In a `serde_json` object the fields have no order of their
//! own and a name occurs once: where a document names a field twice, the
//! later value stays.

use vstd::prelude::*;
use crate::document::{spec_fields, spec_items, lemma_view_unfolds, Document, Json};

verus! {

/// The values of `serde_json`.
#[verifier::external_type_specification]
#[verifier::external_body]
pub struct ExValue(serde_json::Value);

/// The objects of `serde_json`.
#[verifier::external_type_specification]
#[verifier::external_body]
#[verifier::reject_recursive_types(K)]
#[verifier::reject_recursive_types(V)]
pub struct ExMembers<K, V>(serde_json::Map<K, V>);

/// A JSON value as a mathematical value: an object is a map from names to
/// values.
pub enum Tree {
    Null,
    Bool(bool),
    Number(nat),
    Text(Seq<char>),
    List(Seq<Tree>),
    Object(Map<Seq<char>, Tree>),
}

/// What a `serde_json::Value` holds.
pub uninterp spec fn spec_value(value: serde_json::Value) -> Tree;

/// What a `serde_json::Map` holds: its values by their names.
pub uninterp spec fn spec_members(members: serde_json::Map<String, serde_json::Value>) -> Map<
    Seq<char>,
    Tree,
>;

/// What `serde_json::to_string_pretty` gives for a value that holds `tree`:
/// the text that it writes, or `None` where it gives an error. It writes
/// into memory, from the value alone.
pub uninterp spec fn spec_pretty(tree: Tree) -> Option<Seq<char>>;

/// The characters of a text that may be missing.
pub open spec fn spec_text(text: Option<String>) -> Option<Seq<char>> {
    match text {
        Some(t) => Some(t@),
        None => None,
    }
}

/// The index of the last field named `key` among `fields`; -1 where there
/// is none.
pub open spec fn spec_last_index(fields: Seq<(Seq<char>, Json)>, key: Seq<char>) -> int
    decreases fields.len(),
{
    if fields.len() == 0 {
        -1
    } else if fields.last().0 == key {
        fields.len() - 1
    } else {
        spec_last_index(fields.drop_last(), key)
    }
}

impl Json {
    /// This document as a JSON value: the same tree, but in an object each
    /// name has the value of the last field of that name.
    pub open spec fn tree(self) -> Tree
        decreases self,
    {
        match self {
            Json::Null => Tree::Null,
            Json::Bool(b) => Tree::Bool(b),
            Json::Number(n) => Tree::Number(n),
            Json::Text(s) => Tree::Text(s),
            Json::List(items) => Tree::List(
                Seq::new(
                    items.len(),
                    |i: int|
                        if 0 <= i < items.len() {
                            items[i].tree()
                        } else {
                            Tree::Null
                        },
                ),
            ),
            Json::Object(fields) => Tree::Object(
                Map::new(
                    |key: Seq<char>| spec_last_index(fields, key) >= 0,
                    |key: Seq<char>|
                        {
                            let i = spec_last_index(fields, key);
                            if 0 <= i < fields.len() {
                                fields[i].1.tree()
                            } else {
                                Tree::Null
                            }
                        },
                ),
            ),
        }
    }
}

/// The members of an object that has none.
pub open spec fn spec_no_members() -> Map<Seq<char>, Tree> {
    Map::empty()
}

/// The JSON values of the items of a list.
pub open spec fn spec_item_trees(items: Seq<Json>) -> Seq<Tree> {
    Seq::new(items.len(), |i: int| items[i].tree())
}

/// The members of the object with the fields `fields`: each name with the
/// value of the last field of that name.
pub open spec fn spec_member_trees(fields: Seq<(Seq<char>, Json)>) -> Map<Seq<char>, Tree> {
    Map::new(
        |key: Seq<char>| spec_last_index(fields, key) >= 0,
        |key: Seq<char>| fields[spec_last_index(fields, key)].1.tree(),
    )
}

/// `serde_json::Value::Null`: the value that holds null.
#[verifier::external_body]
fn value_null() -> (value: serde_json::Value)
    ensures
        spec_value(value) == Tree::Null,
{
    serde_json::Value::Null
}

/// `serde_json::Value::Bool`: the value that holds the boolean `b`.
#[verifier::external_body]
fn value_bool(b: bool) -> (value: serde_json::Value)
    ensures
        spec_value(value) == Tree::Bool(b),
{
    serde_json::Value::Bool(b)
}

/// `<serde_json::Value as From<u64>>::from`: the value that holds the
/// number `n`.
#[verifier::external_body]
fn value_number(n: u64) -> (value: serde_json::Value)
    ensures
        spec_value(value) == Tree::Number(n as nat),
{
    serde_json::Value::from(n)
}

/// `serde_json::Value::String`: the value that holds the text `s`.
#[verifier::external_body]
fn value_text(s: String) -> (value: serde_json::Value)
    ensures
        spec_value(value) == Tree::Text(s@),
{
    serde_json::Value::String(s)
}

/// `serde_json::Value::Array`: the value that holds the list of `items`,
/// in their order.
#[verifier::external_body]
fn value_list(items: Vec<serde_json::Value>) -> (value: serde_json::Value)
    ensures
        spec_value(value) == Tree::List(Seq::new(items@.len(), |i: int| spec_value(items@[i]))),
{
    serde_json::Value::Array(items)
}

/// `serde_json::Value::Object`: the value that holds the object with the
/// members of `members`.
#[verifier::external_body]
fn value_object(members: serde_json::Map<String, serde_json::Value>) -> (value: serde_json::Value)
    ensures
        spec_value(value) == Tree::Object(spec_members(members)),
{
    serde_json::Value::Object(members)
}

/// `serde_json::Map::new`: an object without members.
#[verifier::external_body]
fn members_new() -> (members: serde_json::Map<String, serde_json::Value>)
    ensures
        spec_members(members) == spec_no_members(),
{
    serde_json::Map::new()
}

/// `serde_json::Map::insert`: afterwards the name `key` has the value
/// `value`, whether the object had the name before or not, and every other
/// name has what it had.
#[verifier::external_body]
fn members_insert(
    members: &mut serde_json::Map<String, serde_json::Value>,
    key: String,
    value: serde_json::Value,
)
    ensures
        spec_members(*final(members)) == spec_members(*old(members)).insert(key@, spec_value(value)),
{
    members.insert(key, value);
}

/// `serde_json::to_string_pretty`: its outcome, the text or the failure, is
/// the one that belongs to what the value holds. Nothing is claimed about
/// which of the two it is.
#[verifier::external_body]
fn pretty(value: &serde_json::Value) -> (text: Option<String>)
    ensures
        spec_text(text) == spec_pretty(spec_value(*value)),
{
    serde_json::to_string_pretty(value).ok()
}

/// The last index of a name is an index of a field of that name, where the
/// name occurs at all.
pub proof fn lemma_last_index(fields: Seq<(Seq<char>, Json)>, key: Seq<char>)
    ensures
        -1 <= spec_last_index(fields, key) < fields.len(),
        spec_last_index(fields, key) >= 0 ==> fields[spec_last_index(fields, key)].0 == key,
        spec_last_index(fields, key) < 0 ==> forall|i: int|
            0 <= i < fields.len() ==> (#[trigger] fields[i]).0 != key,
    decreases fields.len(),
{
    if fields.len() > 0 && fields.last().0 != key {
        let rest = fields.drop_last();
        lemma_last_index(rest, key);
        if spec_last_index(fields, key) >= 0 {
            assert(rest[spec_last_index(rest, key)] == fields[spec_last_index(rest, key)]);
        } else {
            assert forall|i: int| 0 <= i < fields.len() implies (#[trigger] fields[i]).0
                != key by {
                if i < rest.len() {
                    assert(rest[i] == fields[i]);
                }
            }
        }
    }
}

/// The JSON value of a list holds the JSON values of its items, and the
/// JSON value of an object the members of its fields.
pub proof fn lemma_tree_unfolds(j: Json)
    ensures
        j matches Json::List(items) ==> j.tree() == Tree::List(spec_item_trees(items)),
        j matches Json::Object(fields) ==> j.tree() == Tree::Object(spec_member_trees(fields)),
{
    reveal_with_fuel(Json::tree, 2);
    match j {
        Json::List(items) => {
            assert(j.tree()->List_0 =~= spec_item_trees(items));
        },
        Json::Object(fields) => {
            assert forall|key: Seq<char>| spec_last_index(fields, key) >= 0 implies j.tree()->Object_0[key]
                == spec_member_trees(fields)[key] by {
                lemma_last_index(fields, key);
            }
            assert(j.tree()->Object_0 =~= spec_member_trees(fields));
        },
        _ => {},
    }
}

/// One more field adds its name with its value to the members, in place of
/// what the name had.
pub proof fn lemma_member_trees_step(fields: Seq<(Seq<char>, Json)>, i: int)
    requires
        0 <= i < fields.len(),
    ensures
        spec_member_trees(fields.subrange(0, i + 1)) == spec_member_trees(
            fields.subrange(0, i),
        ).insert(fields[i].0, fields[i].1.tree()),
{
    let more = fields.subrange(0, i + 1);
    let less = fields.subrange(0, i);
    assert(more.drop_last() =~= less);
    assert(more.last() == fields[i]);
    let stepped = spec_member_trees(less).insert(fields[i].0, fields[i].1.tree());
    assert forall|key: Seq<char>|
        spec_member_trees(more).dom().contains(key) == stepped.dom().contains(key) && (
        spec_member_trees(more).dom().contains(key) ==> spec_member_trees(more)[key]
            == stepped[key]) by {
        lemma_last_index(less, key);
        if fields[i].0 != key && spec_last_index(less, key) >= 0 {
            assert(more[spec_last_index(less, key)] == less[spec_last_index(less, key)]);
        }
    }
    assert(spec_member_trees(more) =~= stepped);
}

/// The `serde_json` value of a document: the same tree, where in an object
/// a name that occurs twice keeps its later value.
pub fn to_value(doc: &Document) -> (value: serde_json::Value)
    ensures
        spec_value(value) == doc@.tree(),
    decreases doc,
{
    proof {
        lemma_view_unfolds(*doc);
        lemma_tree_unfolds(doc@);
    }
    match doc {
        Document::Null => value_null(),
        Document::Bool(b) => value_bool(*b),
        Document::Number(n) => value_number(*n),
        Document::Text(s) => value_text(s.clone()),
        Document::List(items) => {
            let mut values: Vec<serde_json::Value> = Vec::new();
            let mut i: usize = 0;
            while i < items.len()
                invariant
                    i <= items.len(),
                    values@.len() == i,
                    *doc == Document::List(*items),
                    forall|k: int|
                        0 <= k < i ==> spec_value(#[trigger] values@[k]) == items@[k]@.tree(),
                decreases items.len() - i,
            {
                proof {
                    vstd::std_specs::vec::axiom_vec_index_decreases(*items, i as int);
                    assert(decreases_to!(*doc => doc->List_0));
                }
                let value = to_value(&items[i]);
                values.push(value);
                i += 1;
            }
            let value = value_list(values);
            assert(spec_value(value)->List_0 =~= spec_item_trees(spec_items(items@)));
            value
        },
        Document::Object(fields) => {
            let ghost all = spec_fields(fields@);
            let mut members = members_new();
            assert(spec_member_trees(all.subrange(0, 0)) =~= spec_no_members()) by {
                assert(all.subrange(0, 0).len() == 0);
            }
            let mut i: usize = 0;
            while i < fields.len()
                invariant
                    i <= fields.len(),
                    *doc == Document::Object(*fields),
                    all == spec_fields(fields@),
                    spec_members(members) == spec_member_trees(all.subrange(0, i as int)),
                decreases fields.len() - i,
            {
                proof {
                    vstd::std_specs::vec::axiom_vec_index_decreases(*fields, i as int);
                    assert(decreases_to!(*doc => doc->Object_0));
                    assert(decreases_to!(fields[i as int] => fields[i as int].1));
                }
                let value = to_value(&fields[i].1);
                proof {
                    lemma_member_trees_step(all, i as int);
                }
                members_insert(&mut members, fields[i].0.clone(), value);
                i += 1;
            }
            assert(all.subrange(0, i as int) =~= all);
            value_object(members)
        },
    }
}

/// The text of a document: pretty-printed JSON, as `serde_json` writes it
/// for the JSON value of the document. `None` exactly where `serde_json`
/// gives no text for that value.
pub fn render(doc: &Document) -> (text: Option<String>)
    ensures
        spec_text(text) == spec_pretty(doc@.tree()),
{
    let value = to_value(doc);
    pretty(&value)
}

/// Documents that are equal as values have the same text, or both have
/// none: the text is written from the value alone.
pub proof fn lemma_render_deterministic(a: Document, b: Document)
    requires
        a@ == b@,
    ensures
        spec_pretty(a@.tree()) == spec_pretty(b@.tree()),
{
}

} // verus!
