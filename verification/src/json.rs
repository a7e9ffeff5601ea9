//! The JSON document model the manifest codec works on, and the trusted
//! boundary to serde_json that turns bytes into such documents and back.
//!
//! The model covers exactly what the manifest schema can hold: numbers
//! are unsigned 64-bit integers (the schema stores only byte counts),
//! and object entries keep the order the parser handed over.

use vstd::prelude::*;
use crate::strutil::str_eq;

verus! {

/// A JSON document.
#[derive(Debug)]
pub enum Json {
    Null,
    Bool(bool),
    UInt(u64),
    Str(String),
    Arr(Vec<Json>),
    Obj(Vec<(String, Json)>),
}

/// The mathematical form of a [`Json`] document.
pub enum JsonVal {
    Null,
    Bool(bool),
    UInt(u64),
    Str(Seq<char>),
    Arr(Seq<JsonVal>),
    Obj(Seq<(Seq<char>, JsonVal)>),
}

/// The mathematical form of a document node.
pub open spec fn jview(j: Json) -> JsonVal
    decreases j,
{
    match j {
        Json::Null => JsonVal::Null,
        Json::Bool(b) => JsonVal::Bool(b),
        Json::UInt(n) => JsonVal::UInt(n),
        Json::Str(s) => JsonVal::Str(s@),
        Json::Arr(v) => JsonVal::Arr(jview_arr(v@)),
        Json::Obj(v) => JsonVal::Obj(jview_obj(v@)),
    }
}

/// The mathematical form of an array's elements.
pub open spec fn jview_arr(s: Seq<Json>) -> Seq<JsonVal>
    decreases s,
{
    if s.len() == 0 {
        Seq::empty()
    } else {
        seq![jview(s[0])] + jview_arr(s.subrange(1, s.len() as int))
    }
}

/// The mathematical form of an object's entries.
pub open spec fn jview_obj(s: Seq<(String, Json)>) -> Seq<(Seq<char>, JsonVal)>
    decreases s,
{
    if s.len() == 0 {
        Seq::empty()
    } else {
        seq![(s[0].0@, jview(s[0].1))] + jview_obj(s.subrange(1, s.len() as int))
    }
}

impl DeepView for Json {
    type V = JsonVal;

    open spec fn deep_view(&self) -> JsonVal {
        jview(*self)
    }
}

/// Indexing into an array's view is indexing into the view of each
/// element, and likewise for an object's entries.
pub proof fn lemma_jview_arr_index(s: Seq<Json>)
    ensures
        jview_arr(s).len() == s.len(),
        forall|i: int| 0 <= i < s.len() ==> jview_arr(s)[i] == jview(s[i]),
    decreases s,
{
    if s.len() > 0 {
        lemma_jview_arr_index(s.subrange(1, s.len() as int));
    }
}

/// The entry-wise form of [`jview_obj`].
pub proof fn lemma_jview_obj_index(s: Seq<(String, Json)>)
    ensures
        jview_obj(s).len() == s.len(),
        forall|i: int|
            0 <= i < s.len() ==> jview_obj(s)[i] == (s[i].0@, jview(s[i].1)),
    decreases s,
{
    if s.len() > 0 {
        lemma_jview_obj_index(s.subrange(1, s.len() as int));
    }
}

/// A vector of object entries deep-views to the same sequence that
/// [`jview_obj`] gives.
pub proof fn lemma_obj_entries_view(v: &Vec<(String, Json)>)
    ensures
        v.deep_view() == jview_obj(v@),
{
    lemma_jview_obj_index(v@);
    assert(v.deep_view() =~= jview_obj(v@));
}

/// The value under the first entry named `key`, if the object has one.
pub open spec fn obj_lookup(es: Seq<(Seq<char>, JsonVal)>, key: Seq<char>) -> Option<JsonVal>
    decreases es.len(),
{
    if es.len() == 0 {
        None
    } else if es[0].0 == key {
        Some(es[0].1)
    } else {
        obj_lookup(es.drop_first(), key)
    }
}

/// Find the value under the first entry named `key`.
pub fn obj_get<'a>(entries: &'a Vec<(String, Json)>, key: &str) -> (r: Option<&'a Json>)
    ensures
        r is Some <==> obj_lookup(entries.deep_view(), key@) is Some,
        r is Some ==> r->Some_0.deep_view() == obj_lookup(entries.deep_view(), key@)->Some_0,
{
    let ghost es = entries.deep_view();
    proof {
        assert(es.skip(0) =~= es);
    }
    let mut i: usize = 0;
    while i < entries.len()
        invariant
            i <= entries.len(),
            es == entries.deep_view(),
            es.len() == entries@.len(),
            obj_lookup(es, key@) == obj_lookup(es.skip(i as int), key@),
        decreases entries@.len() - i,
    {
        if str_eq(entries[i].0.as_str(), key) {
            proof {
                assert(es.skip(i as int)[0] == es[i as int]);
            }
            return Some(&entries[i].1);
        }
        proof {
            assert(es.skip(i as int)[0] == es[i as int]);
            assert(es.skip(i as int).drop_first() =~= es.skip(i + 1));
        }
        i += 1;
    }
    proof {
        assert(es.skip(i as int).len() == 0);
    }
    None
}

/// Result of parsing bytes as a JSON document: a function of the bytes
/// alone, and nothing else is assumed of it.
pub uninterp spec fn json_parse(bytes: Seq<u8>) -> Option<JsonVal>;

/// The JSON document emitted for a value tree: a function of the tree
/// alone, and nothing else is assumed of it.
pub uninterp spec fn json_text(v: JsonVal) -> Seq<u8>;

#[verifier::external_type_specification]
#[verifier::external_body]
pub struct ExValue(serde_json::Value);

/// Converts serde_json's document tree into the library's, node for
/// node; a number outside the unsigned 64-bit range is refused. Part of
/// the trusted boundary around serde_json: Verus does not read it.
#[verifier::external_body]
fn from_value(v: &serde_json::Value) -> Option<Json> {
    match v {
        serde_json::Value::Null => Some(Json::Null),
        serde_json::Value::Bool(b) => Some(Json::Bool(*b)),
        serde_json::Value::Number(n) => n.as_u64().map(Json::UInt),
        serde_json::Value::String(s) => Some(Json::Str(s.clone())),
        serde_json::Value::Array(a) => {
            a.iter().map(from_value).collect::<Option<Vec<Json>>>().map(Json::Arr)
        },
        serde_json::Value::Object(m) => {
            m.iter()
                .map(|(k, x)| from_value(x).map(|j| (k.clone(), j)))
                .collect::<Option<Vec<(String, Json)>>>()
                .map(Json::Obj)
        },
    }
}

/// Converts the library's document tree into serde_json's, node for
/// node. Part of the trusted boundary around serde_json: Verus does not
/// read it.
#[verifier::external_body]
fn to_value(j: &Json) -> serde_json::Value {
    match j {
        Json::Null => serde_json::Value::Null,
        Json::Bool(b) => serde_json::Value::Bool(*b),
        Json::UInt(n) => serde_json::Value::Number(serde_json::Number::from(*n)),
        Json::Str(s) => serde_json::Value::String(s.clone()),
        Json::Arr(v) => serde_json::Value::Array(v.iter().map(to_value).collect()),
        Json::Obj(v) => serde_json::Value::Object(
            v.iter().map(|(k, x)| (k.clone(), to_value(x))).collect(),
        ),
    }
}

/// Relies on serde_json::from_slice: whether the bytes parse, and the
/// document they parse to, are functions of the bytes alone. The error
/// text is serde_json's own description of the violation.
#[verifier::external_body]
pub(crate) fn json_from_bytes(data: &[u8]) -> (r: Result<Json, String>)
    ensures
        r is Ok <==> json_parse(data@) is Some,
        r is Ok ==> r->Ok_0.deep_view() == json_parse(data@)->Some_0,
{
    let v: serde_json::Value = match serde_json::from_slice(data) {
        Ok(v) => v,
        Err(e) => return Err(format!("{}", e)),
    };
    from_value(&v).ok_or_else(|| "manifest holds a number outside the unsigned 64-bit range".to_string())
}

/// Relies on serde_json::to_vec: the emitted document is a function of
/// the value tree alone.
#[verifier::external_body]
pub(crate) fn json_to_bytes(j: &Json) -> (r: Vec<u8>)
    ensures
        r@ == json_text(j.deep_view()),
{
    serde_json::to_vec(&to_value(j)).unwrap_or_default()
}

} // verus!
