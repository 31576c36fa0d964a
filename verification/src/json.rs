//! The crate's JSON value model.
//!
//! Payloads are built, merged and inspected as `JsonValue` trees, whose
//! mathematical model is `Json` (text as `Seq<char>`, aggregates as `Seq`).
//! Encoding to and decoding from JSON text is done by serde_json behind
//! trusted wrappers at the bottom of this file; everything that looks
//! inside a value is verified against the model.

use vstd::prelude::*;
use vstd::string::*;

verus! {

broadcast use vstd::std_specs::vec::axiom_vec_index_decreases;

/// The mathematical model of a JSON value. Numbers are carried as their
/// literal text, which keeps the model exact without floating point.
/// Objects are ordered entry sequences; a later entry with the same key
/// overrides an earlier one (see `sget`).
pub enum Json {
    Null,
    Bool(bool),
    Num(Seq<char>),
    Text(Seq<char>),
    Arr(Seq<Json>),
    Obj(Seq<(Seq<char>, Json)>),
}

/// A JSON value: the executable counterpart of `Json`.
#[derive(Debug, PartialEq)]
pub enum JsonValue {
    Null,
    Bool(bool),
    Num(String),
    Text(String),
    Arr(Vec<JsonValue>),
    Obj(Vec<(String, JsonValue)>),
}

pub open spec fn jmodel(v: JsonValue) -> Json
    decreases v,
{
    match v {
        JsonValue::Null => Json::Null,
        JsonValue::Bool(b) => Json::Bool(b),
        JsonValue::Num(s) => Json::Num(s@),
        JsonValue::Text(s) => Json::Text(s@),
        JsonValue::Arr(items) => Json::Arr(arr_model_rec(items@)),
        JsonValue::Obj(entries) => Json::Obj(entries_model_rec(entries@)),
    }
}

pub open spec fn arr_model_rec(s: Seq<JsonValue>) -> Seq<Json>
    decreases s,
{
    if s.len() == 0 {
        Seq::empty()
    } else {
        arr_model_rec(s.drop_last()).push(jmodel(s.last()))
    }
}

pub open spec fn entries_model_rec(s: Seq<(String, JsonValue)>) -> Seq<(Seq<char>, Json)>
    decreases s,
{
    if s.len() == 0 {
        Seq::empty()
    } else {
        entries_model_rec(s.drop_last()).push((s.last().0@, jmodel(s.last().1)))
    }
}

/// `arr_model_rec` is the element-wise model of the sequence.
pub proof fn lemma_arr_model_rec(s: Seq<JsonValue>)
    ensures
        arr_model_rec(s) =~= Seq::new(s.len(), |i: int| jmodel(s[i])),
    decreases s.len(),
{
    if s.len() > 0 {
        lemma_arr_model_rec(s.drop_last());
    }
}

/// `entries_model_rec` coincides with `entries_model`.
pub proof fn lemma_entries_model_rec(s: Seq<(String, JsonValue)>)
    ensures
        entries_model_rec(s) =~= entries_model(s),
    decreases s.len(),
{
    if s.len() > 0 {
        lemma_entries_model_rec(s.drop_last());
        assert(entries_model(s.drop_last()) =~= entries_model(s).drop_last());
    }
}

impl View for JsonValue {
    type V = Json;

    open spec fn view(&self) -> Json {
        jmodel(*self)
    }
}

/// The model of an object's entry list.
pub open spec fn entries_model(s: Seq<(String, JsonValue)>) -> Seq<(Seq<char>, Json)> {
    Seq::new(s.len(), |i: int| (s[i].0@, s[i].1@))
}

/// Object lookup: the value of the last entry carrying `key`, if any.
pub open spec fn sget(entries: Seq<(Seq<char>, Json)>, key: Seq<char>) -> Option<Json>
    decreases entries.len(),
{
    if entries.len() == 0 {
        None
    } else if entries.last().0 == key {
        Some(entries.last().1)
    } else {
        sget(entries.drop_last(), key)
    }
}

/// Looks `key` up in an entry list, later entries overriding earlier ones.
pub fn obj_get<'a>(entries: &'a Vec<(String, JsonValue)>, key: &str) -> (r: Option<&'a JsonValue>)
    ensures
        match r {
            Some(v) => sget(entries_model(entries@), key@) == Some(v@),
            None => sget(entries_model(entries@), key@) is None,
        },
{
    let ghost m = entries_model(entries@);
    proof {
        assert(m.take(m.len() as int) =~= m);
    }
    let mut i: usize = entries.len();
    while i > 0
        invariant
            m == entries_model(entries@),
            0 <= i <= entries@.len(),
            m.len() == entries@.len(),
            sget(m, key@) == sget(m.take(i as int), key@),
        decreases i,
    {
        i = i - 1;
        proof {
            assert(m.take(i as int + 1).drop_last() =~= m.take(i as int));
            assert(m.take(i as int + 1).last() == m[i as int]);
        }
        if crate::text::str_eq(entries[i].0.as_str(), key) {
            return Some(&entries[i].1);
        }
    }
    proof {
        assert(m.take(0) =~= Seq::<(Seq<char>, Json)>::empty());
    }
    None
}

/// Stores `value` under `key`: the new entry is appended, and `sget`
/// resolves it ahead of any earlier entry with the same key.
pub fn obj_insert(entries: &mut Vec<(String, JsonValue)>, key: String, value: JsonValue)
    ensures
        entries_model(final(entries)@) == entries_model(old(entries)@).push((key@, value@)),
        forall|k: Seq<char>| #![auto]
            sget(entries_model(final(entries)@), k) == if k == key@ {
                Some(value@)
            } else {
                sget(entries_model(old(entries)@), k)
            },
{
    let ghost oldm = entries_model(entries@);
    let ghost km = key@;
    let ghost vm = value@;
    entries.push((key, value));
    proof {
        assert(entries_model(entries@) =~= oldm.push((km, vm)));
        let m = entries_model(entries@);
        assert(m.drop_last() =~= oldm);
        assert(forall|k: Seq<char>| #![auto]
            sget(m, k) == if k == km {
                Some(vm)
            } else {
                sget(oldm, k)
            });
    }
}

/// Lays `updates` over `target`: every key present in `updates` takes the
/// updated value, every other key keeps its previous one.
pub fn merge_object_fields(target: &mut Vec<(String, JsonValue)>, updates: Vec<(String, JsonValue)>)
    ensures
        entries_model(final(target)@) == entries_model(old(target)@) + entries_model(updates@),
{
    let ghost oldm = entries_model(target@);
    let ghost upm = entries_model(updates@);
    let mut updates = updates;
    target.append(&mut updates);
    proof {
        assert(entries_model(target@) =~= oldm + upm);
    }
}

/// Later stages strictly override earlier ones: looking a key up in a
/// merged object gives the update when the updates carry the key, and the
/// base value otherwise. Keys present only in the base survive unchanged.
pub proof fn lemma_merge_overrides(
    base: Seq<(Seq<char>, Json)>,
    updates: Seq<(Seq<char>, Json)>,
    key: Seq<char>,
)
    ensures
        sget(base + updates, key) == if sget(updates, key) is Some {
            sget(updates, key)
        } else {
            sget(base, key)
        },
    decreases updates.len(),
{
    if updates.len() == 0 {
        assert(base + updates =~= base);
    } else {
        let m = base + updates;
        assert(m.last() == updates.last());
        assert(m.drop_last() =~= base + updates.drop_last());
        lemma_merge_overrides(base, updates.drop_last(), key);
    }
}

#[verifier::external_type_specification]
#[verifier::external_body]
pub struct ExSerdeValue(serde_json::Value);

/// Converts a serde_json tree into a `JsonValue`, one node for one node;
/// numbers keep serde_json's own rendering of their value. Relies on the
/// variants of serde_json::Value and on serde_json::Number's Display.
#[verifier::external_body]
fn value_of_serde(v: serde_json::Value) -> JsonValue {
    match v {
        serde_json::Value::Null => JsonValue::Null,
        serde_json::Value::Bool(b) => JsonValue::Bool(b),
        serde_json::Value::Number(n) => JsonValue::Num(n.to_string()),
        serde_json::Value::String(s) => JsonValue::Text(s),
        serde_json::Value::Array(items) => JsonValue::Arr(
            items.into_iter().map(value_of_serde).collect(),
        ),
        serde_json::Value::Object(entries) => JsonValue::Obj(
            entries.into_iter().map(|(k, item)| (k, value_of_serde(item))).collect(),
        ),
    }
}

/// Converts a `JsonValue` back into a serde_json tree, one node for one
/// node; entries with a repeated key collapse to the last one, matching
/// `sget`. Relies on serde_json::Value's variants, serde_json::Number's
/// FromStr, and serde_json::Map's insertion semantics.
#[verifier::external_body]
fn serde_of_value(v: &JsonValue) -> serde_json::Value {
    match v {
        JsonValue::Null => serde_json::Value::Null,
        JsonValue::Bool(b) => serde_json::Value::Bool(*b),
        JsonValue::Num(s) => s.parse::<serde_json::Number>().map_or(
            serde_json::Value::Null,
            serde_json::Value::Number,
        ),
        JsonValue::Text(s) => serde_json::Value::String(s.clone()),
        JsonValue::Arr(items) => serde_json::Value::Array(
            items.iter().map(serde_of_value).collect(),
        ),
        JsonValue::Obj(entries) => serde_json::Value::Object(
            entries.iter().map(|(k, item)| (k.clone(), serde_of_value(item))).collect(),
        ),
    }
}

/// What serde_json parses a given text to (translated into the model), or
/// `None` where it rejects the text.
pub uninterp spec fn spec_json_parse(s: Seq<char>) -> Option<Json>;

/// JSON text: Parses `s` with serde_json. Relies on serde_json::from_str
/// accepting exactly the JSON texts within its nesting limit, and on the
/// parse being a function of the input text alone.
#[verifier::external_body]
pub fn json_parse(s: &str) -> (r: Option<JsonValue>)
    ensures
        (r is Some) == (spec_json_parse(s@) is Some),
        r matches Some(v) ==> Some(v@) == spec_json_parse(s@),
{
    match serde_json::from_str::<serde_json::Value>(s) {
        Ok(v) => Some(value_of_serde(v)),
        Err(_) => None,
    }
}

/// The compact JSON rendering of a value.
pub uninterp spec fn spec_json_text(v: Json) -> Seq<char>;

/// Renders a value as compact JSON text. Relies on serde_json::Value's
/// Display being a function of the value alone.
#[verifier::external_body]
pub fn json_to_string(v: &JsonValue) -> (r: String)
    ensures
        r@ == spec_json_text(v@),
{
    serde_of_value(v).to_string()
}

/// The pretty-printed JSON rendering of a value.
pub uninterp spec fn spec_json_pretty(v: Json) -> Seq<char>;

/// Renders a value as indented JSON text. Relies on
/// serde_json::to_string_pretty being a function of the value alone and
/// infallible on serde_json::Value input.
#[verifier::external_body]
pub fn json_to_pretty(v: &JsonValue) -> (r: String)
    ensures
        r@ == spec_json_pretty(v@),
{
    serde_json::to_string_pretty(&serde_of_value(v)).unwrap_or_default()
}

/// Pretty-prints `input` when it is valid JSON and hands it back raw
/// otherwise, for readable error dumps.
pub fn pretty_json_or_raw(input: &str) -> (r: String)
    ensures
        r@ == match spec_json_parse(input@) {
            Some(v) => spec_json_pretty(v),
            None => input@,
        },
{
    match json_parse(input) {
        Some(v) => json_to_pretty(&v),
        None => input.to_owned(),
    }
}

} // verus!
