use vstd::prelude::*;

verus! {

/// Mathematical model of a structured metadata document: the tree that a
/// parsed JSON text denotes. Object entries are kept as a sequence of
/// key/value pairs so that the document's own key order is part of the model.
pub enum JsonVal {
    Null,
    Bool(bool),
    Num(int),
    Str(Seq<char>),
    Arr(Seq<JsonVal>),
    Obj(Seq<(Seq<char>, JsonVal)>),
}

/// The value of the first entry whose key is `key`, if any.
pub open spec fn obj_lookup(entries: Seq<(Seq<char>, JsonVal)>, key: Seq<char>) -> Option<JsonVal>
    decreases entries.len(),
{
    if entries.len() == 0 {
        None
    } else if entries[0].0 == key {
        Some(entries[0].1)
    } else {
        obj_lookup(entries.drop_first(), key)
    }
}

/// All keys of an object's entry sequence are pairwise distinct.
pub open spec fn keys_distinct(entries: Seq<(Seq<char>, JsonVal)>) -> bool {
    forall|i: int, j: int|
        0 <= i < entries.len() && 0 <= j < entries.len() && i != j ==> entries[i].0 != entries[j].0
}

/// Looking an entry's own key up finds that entry, when keys are distinct.
pub proof fn lemma_obj_lookup_at(entries: Seq<(Seq<char>, JsonVal)>, i: int)
    requires
        keys_distinct(entries),
        0 <= i < entries.len(),
    ensures
        obj_lookup(entries, entries[i].0) == Some(entries[i].1),
    decreases entries.len(),
{
    if i > 0 {
        assert(entries.drop_first()[i - 1] == entries[i]);
        assert(keys_distinct(entries.drop_first())) by {
            assert forall|x: int, y: int|
                0 <= x < entries.drop_first().len() && 0 <= y < entries.drop_first().len() && x
                    != y implies entries.drop_first()[x].0 != entries.drop_first()[y].0 by {
                assert(entries.drop_first()[x] == entries[x + 1]);
                assert(entries.drop_first()[y] == entries[y + 1]);
            }
        }
        lemma_obj_lookup_at(entries.drop_first(), i - 1);
    }
}

/// The document that a metadata text denotes: `Some` exactly on texts that
/// parse as JSON. Names the result of `serde_json::from_str`, which depends
/// on the text alone.
pub uninterp spec fn parsed_json(s: Seq<char>) -> Option<JsonVal>;

/// The tree that a `serde_json::Value` holds, with object entries in the
/// order the value's map iterates them (the document's own key order, since
/// the map preserves insertion order).
pub uninterp spec fn value_model(v: serde_json::Value) -> JsonVal;

#[verifier::external_type_specification]
#[verifier::external_body]
pub struct ExValue(serde_json::Value);

#[verifier::external_type_specification]
#[verifier::external_body]
pub struct ExJsonError(serde_json::Error);

/// Relies on serde_json::from_str: parses a JSON text into a value tree,
/// succeeding exactly on well-formed JSON.
#[verifier::external_body]
pub(crate) fn parse_value(s: &str) -> (r: Result<serde_json::Value, serde_json::Error>)
    ensures
        r is Ok <==> parsed_json(s@) is Some,
        r is Ok ==> value_model(r->Ok_0) == parsed_json(s@)->Some_0,
{
    serde_json::from_str::<serde_json::Value>(s)
}

/// Relies on serde_json::Value::as_object and Map::keys: the keys of an
/// object value, in the map's iteration order; `None` on any other shape.
/// A map's keys are unique, so the model's keys are pairwise distinct.
#[verifier::external_body]
pub(crate) fn object_keys(v: &serde_json::Value) -> (r: Option<Vec<String>>)
    ensures
        r is Some <==> value_model(*v) is Obj,
        r is Some ==> r->Some_0.deep_view() == value_model(*v)->Obj_0.map_values(
            |e: (Seq<char>, JsonVal)| e.0,
        ),
        r is Some ==> keys_distinct(value_model(*v)->Obj_0),
{
    v.as_object().map(|m| m.keys().cloned().collect())
}

/// Relies on serde_json::Value::get with a string index: the value under
/// `key` when `v` is an object that has that key, `None` otherwise.
#[verifier::external_body]
pub(crate) fn object_field<'a>(v: &'a serde_json::Value, key: &str) -> (r: Option<
    &'a serde_json::Value,
>)
    ensures
        match value_model(*v) {
            JsonVal::Obj(entries) => match obj_lookup(entries, key@) {
                Some(j) => r is Some && value_model(*r->Some_0) == j,
                None => r is None,
            },
            _ => r is None,
        },
{
    v.get(key)
}

/// Relies on serde_json::Value::as_array: the element vector of an array
/// value, `None` on any other shape.
#[verifier::external_body]
pub(crate) fn as_array(v: &serde_json::Value) -> (r: Option<&Vec<serde_json::Value>>)
    ensures
        r is Some <==> value_model(*v) is Arr,
        r is Some ==> r->Some_0@.len() == value_model(*v)->Arr_0.len(),
        r is Some ==> forall|i: int|
            0 <= i < r->Some_0@.len() ==> #[trigger] value_model(r->Some_0@[i]) == value_model(
                *v,
            )->Arr_0[i],
{
    v.as_array()
}

/// Relies on serde_json::Value::as_str: the characters of a string value,
/// `None` on any other shape.
#[verifier::external_body]
pub(crate) fn as_str<'a>(v: &'a serde_json::Value) -> (r: Option<&'a str>)
    ensures
        r is Some <==> value_model(*v) is Str,
        r is Some ==> r->Some_0@ == value_model(*v)->Str_0,
{
    v.as_str()
}

} // verus!
