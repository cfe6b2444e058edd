//! The handler's own picture of a JSON document.
//!
//! The invoking runtime hands the handler loosely typed JSON values (the
//! configuration payload and the caller's key payload). Inside the library a
//! document is this explicit tree, so every decoding decision can be stated
//! and proved; the runtime adapter converts to and from its own JSON
//! representation at the boundary.

use vstd::prelude::*;

verus! {

/// A JSON document as the handler receives it.
///
/// A number is carried as its decimal source text: the handler never does
/// arithmetic on one, it only passes values through to the store, and text
/// loses no precision on the way.
#[derive(Debug, PartialEq)]
pub enum JsonValue {
    Null,
    Boolean(bool),
    Number(String),
    Text(String),
    Array(Vec<JsonValue>),
    Object(Vec<(String, JsonValue)>),
}

/// The mathematical shape of a JSON document: strings are sequences of
/// characters, vectors are sequences.
#[verifier::ext_equal]
pub enum JsonModel {
    Null,
    Boolean(bool),
    Number(Seq<char>),
    Text(Seq<char>),
    Array(Seq<JsonModel>),
    Object(Seq<(Seq<char>, JsonModel)>),
}

/// The model of one document.
pub open spec fn json_model(v: JsonValue) -> JsonModel
    decreases v,
{
    match v {
        JsonValue::Null => JsonModel::Null,
        JsonValue::Boolean(b) => JsonModel::Boolean(b),
        JsonValue::Number(s) => JsonModel::Number(s@),
        JsonValue::Text(s) => JsonModel::Text(s@),
        JsonValue::Array(items) => JsonModel::Array(seq_model(items@)),
        JsonValue::Object(entries) => JsonModel::Object(entries_model(entries@)),
    }
}

/// The models of the elements of an array, in order.
pub open spec fn seq_model(items: Seq<JsonValue>) -> Seq<JsonModel>
    decreases items,
{
    if items.len() == 0 {
        Seq::empty()
    } else {
        seq_model(items.drop_last()).push(json_model(items.last()))
    }
}

/// The shape of an object's entry list: each key becomes a sequence of
/// characters, each value its model. Entry order is kept.
pub open spec fn entries_model(entries: Seq<(String, JsonValue)>) -> Seq<(Seq<char>, JsonModel)>
    decreases entries,
{
    if entries.len() == 0 {
        Seq::empty()
    } else {
        entries_model(entries.drop_last()).push(
            (entries.last().0@, json_model(entries.last().1)),
        )
    }
}

/// `seq_model` is the pointwise model of the elements.
pub proof fn lemma_seq_model(items: Seq<JsonValue>)
    ensures
        seq_model(items).len() == items.len(),
        forall|i: int| 0 <= i < items.len() ==> seq_model(items)[i] == json_model(items[i]),
    decreases items.len(),
{
    if items.len() > 0 {
        lemma_seq_model(items.drop_last());
    }
}

/// `entries_model` is the pointwise model of the entries.
pub proof fn lemma_entries_model(entries: Seq<(String, JsonValue)>)
    ensures
        entries_model(entries).len() == entries.len(),
        forall|i: int| 0 <= i < entries.len() ==> entries_model(entries)[i] == (
            entries[i].0@,
            json_model(entries[i].1),
        ),
    decreases entries.len(),
{
    if entries.len() > 0 {
        lemma_entries_model(entries.drop_last());
    }
}

impl View for JsonValue {
    type V = JsonModel;

    open spec fn view(&self) -> JsonModel {
        json_model(*self)
    }
}

impl Clone for JsonValue {
    /// A deep copy; the copy has the same model as the original.
    fn clone(&self) -> (res: Self)
        ensures
            res@ == self@,
    {
        clone_json(self)
    }
}

#[verifier::loop_isolation(false)]
fn clone_json(v: &JsonValue) -> (res: JsonValue)
    ensures
        res@ == v@,
    decreases *v,
{
    match v {
        JsonValue::Null => JsonValue::Null,
        JsonValue::Boolean(b) => JsonValue::Boolean(*b),
        JsonValue::Number(s) => JsonValue::Number(s.clone()),
        JsonValue::Text(s) => JsonValue::Text(s.clone()),
        JsonValue::Array(items) => {
            let n = items.len();
            let mut out: Vec<JsonValue> = Vec::new();
            let mut i: usize = 0;
            while i < n
                invariant
                    n == items.len(),
                    i <= n,
                    out@.len() == i as int,
                    forall|j: int| 0 <= j < i as int ==> json_model(out@[j]) == json_model(
                        items@[j],
                    ),
                decreases n - i,
            {
                proof {
                    assert(decreases_to!(*v => *items));
                    assert(decreases_to!(*items => items@));
                    assert(decreases_to!(items@ => items@[i as int]));
                }
                out.push(clone_json(&items[i]));
                i += 1;
            }
            proof {
                lemma_seq_model(out@);
                lemma_seq_model(items@);
                assert(seq_model(out@) =~= seq_model(items@));
            }
            JsonValue::Array(out)
        },
        JsonValue::Object(entries) => {
            let n = entries.len();
            let mut out: Vec<(String, JsonValue)> = Vec::new();
            let mut i: usize = 0;
            while i < n
                invariant
                    n == entries.len(),
                    i <= n,
                    out@.len() == i as int,
                    forall|j: int| 0 <= j < i as int ==> out@[j].0@ == entries@[j].0@
                        && json_model(out@[j].1) == json_model(entries@[j].1),
                decreases n - i,
            {
                let pair = &entries[i];
                proof {
                    assert(decreases_to!(*v => *entries));
                    assert(decreases_to!(*entries => entries@));
                    assert(decreases_to!(entries@ => entries@[i as int]));
                    assert(decreases_to!(entries@[i as int] => entries@[i as int].1));
                }
                out.push((pair.0.clone(), clone_json(&pair.1)));
                i += 1;
            }
            proof {
                lemma_entries_model(out@);
                lemma_entries_model(entries@);
                assert(entries_model(out@) =~= entries_model(entries@));
            }
            JsonValue::Object(out)
        },
    }
}

/// The value of the first entry whose key is `key`, if any.
pub open spec fn lookup_field(
    entries: Seq<(Seq<char>, JsonModel)>,
    key: Seq<char>,
) -> Option<JsonModel>
    decreases entries,
{
    if entries.len() == 0 {
        None
    } else if entries.first().0 == key {
        Some(entries.first().1)
    } else {
        lookup_field(entries.drop_first(), key)
    }
}

/// Entries whose first `i` keys all differ from `key` can be skipped.
pub proof fn lemma_lookup_skip(entries: Seq<(Seq<char>, JsonModel)>, key: Seq<char>, i: int)
    requires
        0 <= i <= entries.len(),
        forall|j: int| 0 <= j < i ==> entries[j].0 != key,
    ensures
        lookup_field(entries, key) == lookup_field(
            entries.subrange(i, entries.len() as int),
            key,
        ),
    decreases i,
{
    if i > 0 {
        lemma_lookup_skip(entries, key, i - 1);
        assert(entries.subrange(i - 1, entries.len() as int).drop_first() =~= entries.subrange(
            i,
            entries.len() as int,
        ));
    } else {
        assert(entries.subrange(0, entries.len() as int) =~= entries);
    }
}

/// The first entry of `entries` whose key is `key`, searched front to back.
pub fn get_field<'a>(entries: &'a Vec<(String, JsonValue)>, key: &String) -> (res: Option<
    &'a JsonValue,
>)
    ensures
        match res {
            Some(v) => lookup_field(entries_model(entries@), key@) == Some(json_model(*v)),
            None => lookup_field(entries_model(entries@), key@) is None,
        },
{
    proof {
        lemma_entries_model(entries@);
    }
    let n = entries.len();
    let mut i: usize = 0;
    while i < n
        invariant
            n == entries.len(),
            i <= n,
            forall|j: int| 0 <= j < i as int ==> entries_model(entries@)[j].0 != key@,
        decreases n - i,
    {
        let pair = &entries[i];
        if pair.0 == *key {
            proof {
                lemma_entries_model(entries@);
                lemma_lookup_skip(entries_model(entries@), key@, i as int);
            }
            return Some(&pair.1);
        }
        proof {
            lemma_entries_model(entries@);
        }
        i += 1;
    }
    proof {
        lemma_entries_model(entries@);
        lemma_lookup_skip(entries_model(entries@), key@, n as int);
    }
    None
}

} // verus!
