//! The document that the encoder produces: a generic tree of objects, lists,
//! texts, numbers, booleans and null.

use vstd::prelude::*;
use vstd::string::*;

verus! {

/// A document as a mathematical value. An object is a sequence of fields in
/// the order in which they were written.
pub enum Json {
    Null,
    Bool(bool),
    Number(nat),
    Text(Seq<char>),
    List(Seq<Json>),
    Object(Seq<(Seq<char>, Json)>),
}

/// A document as it is held in memory.
#[derive(Debug, PartialEq, Eq)]
pub enum Document {
    Null,
    Bool(bool),
    Number(u64),
    Text(String),
    List(Vec<Document>),
    Object(Vec<(String, Document)>),
}

impl View for Document {
    type V = Json;

    open spec fn view(&self) -> Json
        decreases self,
    {
        match self {
            Document::Null => Json::Null,
            Document::Bool(b) => Json::Bool(*b),
            Document::Number(n) => Json::Number(*n as nat),
            Document::Text(s) => Json::Text(s@),
            Document::List(items) => Json::List(
                Seq::new(
                    items@.len(),
                    |i: int|
                        if 0 <= i < items@.len() {
                            items@[i].view()
                        } else {
                            Json::Null
                        },
                ),
            ),
            Document::Object(fields) => Json::Object(
                Seq::new(
                    fields@.len(),
                    |i: int|
                        if 0 <= i < fields@.len() {
                            (fields@[i].0@, fields@[i].1.view())
                        } else {
                            (Seq::empty(), Json::Null)
                        },
                ),
            ),
        }
    }
}

/// The fields of an object in memory, as a mathematical value.
pub open spec fn spec_fields(fields: Seq<(String, Document)>) -> Seq<(Seq<char>, Json)> {
    Seq::new(fields.len(), |i: int| (fields[i].0@, fields[i].1@))
}

/// The items of a list in memory, as a mathematical value.
pub open spec fn spec_items(items: Seq<Document>) -> Seq<Json> {
    Seq::new(items.len(), |i: int| items[i]@)
}

/// The value of the first field named `key` among `fields`.
pub open spec fn spec_lookup(fields: Seq<(Seq<char>, Json)>, key: Seq<char>) -> Option<Json>
    decreases fields.len(),
{
    if fields.len() == 0 {
        None
    } else if fields[0].0 == key {
        Some(fields[0].1)
    } else {
        spec_lookup(fields.drop_first(), key)
    }
}

impl Json {
    /// The value of the field `key`, where this is an object that has one.
    pub open spec fn get(self, key: Seq<char>) -> Option<Json> {
        match self {
            Json::Object(fields) => spec_lookup(fields, key),
            _ => None,
        }
    }

    /// Whether this is an object with a field `key`.
    pub open spec fn has(self, key: Seq<char>) -> bool {
        self.get(key) is Some
    }
}

/// The view of an object is the view of its fields, and the view of a list
/// the view of its items.
pub proof fn lemma_view_unfolds(d: Document)
    ensures
        d matches Document::Object(fields) ==> d@ == Json::Object(spec_fields(fields@)),
        d matches Document::List(items) ==> d@ == Json::List(spec_items(items@)),
{
    reveal_with_fuel(<Document as View>::view, 2);
    match d {
        Document::Object(fields) => {
            assert(d@->Object_0 =~= spec_fields(fields@));
        },
        Document::List(items) => {
            assert(d@->List_0 =~= spec_items(items@));
        },
        _ => {},
    }
}

/// A field whose key no earlier field has is the one that a lookup of its
/// key finds.
pub proof fn lemma_lookup_found(fields: Seq<(Seq<char>, Json)>, i: int)
    requires
        0 <= i < fields.len(),
        forall|j: int| 0 <= j < i ==> (#[trigger] fields[j]).0 != fields[i].0,
    ensures
        spec_lookup(fields, fields[i].0) == Some(fields[i].1),
{
    lemma_lookup_from(fields, fields[i].0, i);
    assert(fields.subrange(i, fields.len() as int)[0] == fields[i]);
}

/// What a lookup finds is the value of a field with that key.
pub proof fn lemma_lookup_member(fields: Seq<(Seq<char>, Json)>, key: Seq<char>)
    ensures
        spec_lookup(fields, key) matches Some(value) ==> exists|i: int|
            0 <= i < fields.len() && #[trigger] fields[i] == (key, value),
        spec_lookup(fields, key) is None ==> forall|i: int|
            0 <= i < fields.len() ==> (#[trigger] fields[i]).0 != key,
    decreases fields.len(),
{
    if fields.len() > 0 {
        if fields[0].0 == key {
            assert(fields[0] == (key, fields[0].1));
        } else {
            let rest = fields.drop_first();
            lemma_lookup_member(rest, key);
            if let Some(value) = spec_lookup(rest, key) {
                let i = choose|i: int| 0 <= i < rest.len() && #[trigger] rest[i] == (key, value);
                assert(fields[i + 1] == (key, value));
            } else {
                assert forall|i: int| 0 <= i < fields.len() implies (#[trigger] fields[i]).0
                    != key by {
                    if i > 0 {
                        assert(rest[i - 1] == fields[i]);
                    }
                }
            }
        }
    }
}

/// A lookup walks the fields from `from` on.
proof fn lemma_lookup_from(fields: Seq<(Seq<char>, Json)>, key: Seq<char>, from: int)
    requires
        0 <= from <= fields.len(),
        forall|j: int| 0 <= j < from ==> (#[trigger] fields[j]).0 != key,
    ensures
        spec_lookup(fields, key) == spec_lookup(fields.subrange(from, fields.len() as int), key),
    decreases from,
{
    if from > 0 {
        lemma_lookup_from(fields, key, from - 1);
        let rest = fields.subrange(from - 1, fields.len() as int);
        assert(rest[0] == fields[from - 1]);
        assert(rest.drop_first() =~= fields.subrange(from, fields.len() as int));
    } else {
        assert(fields.subrange(0, fields.len() as int) =~= fields);
    }
}

impl Document {
    /// A text document that holds `s`.
    pub fn text(s: &str) -> (d: Document)
        ensures
            d@ == Json::Text(s@),
    {
        Document::Text(String::from_str(s))
    }

    /// An object with the given fields, in their order.
    pub fn object(fields: Vec<(String, Document)>) -> (d: Document)
        ensures
            d@ == Json::Object(spec_fields(fields@)),
    {
        let d = Document::Object(fields);
        proof {
            lemma_view_unfolds(d);
        }
        d
    }

    /// A list with the given items, in their order.
    pub fn list(items: Vec<Document>) -> (d: Document)
        ensures
            d@ == Json::List(spec_items(items@)),
    {
        let d = Document::List(items);
        proof {
            lemma_view_unfolds(d);
        }
        d
    }

    /// The value of the first field named `key`, where this is an object
    /// that has one.
    pub fn get(&self, key: &str) -> (r: Option<&Document>)
        ensures
            r is Some <==> self@.has(key@),
            r matches Some(d) ==> self@.get(key@) == Some(d@),
    {
        match self {
            Document::Object(fields) => {
                proof {
                    lemma_view_unfolds(*self);
                }
                let wanted = String::from_str(key);
                let ghost all = spec_fields(fields@);
                let mut i: usize = 0;
                while i < fields.len()
                    invariant
                        i <= fields.len(),
                        wanted@ == key@,
                        all == spec_fields(fields@),
                        self@ == Json::Object(all),
                        forall|j: int| 0 <= j < i ==> (#[trigger] all[j]).0 != key@,
                    decreases fields.len() - i,
                {
                    if fields[i].0 == wanted {
                        proof {
                            lemma_lookup_from(all, key@, i as int);
                            assert(all.subrange(i as int, all.len() as int)[0] == all[i as int]);
                        }
                        return Some(&fields[i].1);
                    }
                    i += 1;
                }
                proof {
                    lemma_lookup_from(all, key@, all.len() as int);
                }
                None
            },
            _ => None,
        }
    }
}

/// Appends the field `key: value` to `fields`.
pub fn push_field(fields: &mut Vec<(String, Document)>, key: &str, value: Document)
    ensures
        spec_fields(final(fields)@) == spec_fields(old(fields)@).push((key@, value@)),
{
    fields.push((String::from_str(key), value));
    assert(spec_fields(fields@) =~= spec_fields(old(fields)@).push((key@, value@)));
}

/// Appends the fields `more` to `fields`, in their order.
pub fn append_fields(fields: &mut Vec<(String, Document)>, more: Vec<(String, Document)>)
    ensures
        spec_fields(final(fields)@) == spec_fields(old(fields)@) + spec_fields(more@),
{
    let ghost added = more@;
    let mut more = more;
    fields.append(&mut more);
    assert(spec_fields(fields@) =~= spec_fields(old(fields)@) + spec_fields(added));
}

} // verus!
