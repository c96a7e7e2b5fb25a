//! The library's own model of a JSON document, together with the trusted
//! bridge to serde_json that turns protocol lines into values of this model
//! and values of this model back into text.
//!
//! Everything the protocol logic reads or builds is a [`Json`] value, so that
//! the dispatcher and the response extraction are verified over plain data.
//! Only the parse and render steps at the very edge call serde_json.

use vstd::prelude::*;
use crate::text::str_eq;

verus! {

/// A JSON document.
///
/// Numbers read from the wire are kept as their literal text in [`Json::Num`]
/// and carried through unread (the protocol only ever echoes them back);
/// numbers the library itself produces are integers, [`Json::Int`]. An object
/// keeps its members in order, duplicates included, and a lookup finds the
/// first member with the wanted key.
#[derive(Debug, PartialEq)]
pub enum Json {
    Null,
    Bool(bool),
    Int(i64),
    /// A number kept as the literal text it was parsed from. It should hold
    /// a valid JSON number literal, as every parser-built value does; other
    /// text renders as zero.
    Num(String),
    Str(String),
    Arr(Vec<Json>),
    Obj(Vec<(String, Json)>),
}

/// The first member of `fields` named `key`, if any.
pub open spec fn spec_obj_get(fields: Seq<(String, Json)>, key: Seq<char>) -> Option<Json>
    decreases fields.len(),
{
    if fields.len() == 0 {
        None
    } else if fields[0].0@ == key {
        Some(fields[0].1)
    } else {
        spec_obj_get(fields.drop_first(), key)
    }
}

/// Looking a key up in anything but an object finds nothing.
pub open spec fn spec_get(v: Json, key: Seq<char>) -> Option<Json> {
    match v {
        Json::Obj(fields) => spec_obj_get(fields@, key),
        _ => None,
    }
}

proof fn lemma_obj_get_skip(fields: Seq<(String, Json)>, key: Seq<char>, i: int)
    requires
        0 <= i <= fields.len(),
        forall|j: int| 0 <= j < i ==> fields[j].0@ != key,
    ensures
        spec_obj_get(fields, key) == spec_obj_get(fields.skip(i), key),
    decreases i,
{
    if i > 0 {
        lemma_obj_get_skip(fields.drop_first(), key, i - 1);
        assert(fields.drop_first().skip(i - 1) =~= fields.skip(i));
    } else {
        assert(fields.skip(0) =~= fields);
    }
}

/// Appending a member does not change a lookup that already succeeds, and
/// answers one that fails exactly when the new member's key matches.
pub proof fn lemma_obj_get_push(fields: Seq<(String, Json)>, key: Seq<char>, m: (String, Json))
    ensures
        spec_obj_get(fields.push(m), key) == (if spec_obj_get(fields, key) is Some {
            spec_obj_get(fields, key)
        } else if m.0@ == key {
            Some(m.1)
        } else {
            None
        }),
    decreases fields.len(),
{
    if fields.len() == 0 {
        assert(fields.push(m)[0] == m);
        assert(fields.push(m).drop_first() =~= Seq::<(String, Json)>::empty());
    } else {
        lemma_obj_get_push(fields.drop_first(), key, m);
        assert(fields.push(m).drop_first() =~= fields.drop_first().push(m));
        assert(fields.push(m)[0] == fields[0]);
        assert(fields.push(m).len() > 0);
        assert(spec_obj_get(fields.push(m), key) == (if fields.push(m)[0].0@ == key {
            Some(fields.push(m)[0].1)
        } else {
            spec_obj_get(fields.push(m).drop_first(), key)
        }));
    }
}

impl Json {
    /// The first member named `key`, when this value is an object that has
    /// one.
    pub fn get<'a>(&'a self, key: &str) -> (r: Option<&'a Json>)
        ensures
            match r {
                Some(j) => spec_get(*self, key@) == Some(*j),
                None => spec_get(*self, key@) is None,
            },
    {
        match self {
            Json::Obj(fields) => {
                let n = fields.len();
                let mut i: usize = 0;
                while i < n
                    invariant
                        i <= n,
                        n == fields@.len(),
                        self is Obj,
                        self->Obj_0 == *fields,
                        forall|j: int| 0 <= j < i ==> fields@[j].0@ != key@,
                    decreases n - i,
                {
                    if str_eq(fields[i].0.as_str(), key) {
                        proof {
                            lemma_obj_get_skip(fields@, key@, i as int);
                            assert(fields@.skip(i as int)[0] == fields@[i as int]);
                            assert(spec_obj_get(fields@.skip(i as int), key@) == Some(
                                fields@[i as int].1,
                            ));
                        }
                        return Some(&fields[i].1);
                    }
                    i += 1;
                }
                proof {
                    lemma_obj_get_skip(fields@, key@, n as int);
                    assert(fields@.skip(n as int) =~= Seq::<(String, Json)>::empty());
                }
                None
            },
            _ => None,
        }
    }

}

#[verifier::external_type_specification]
#[verifier::external_body]
pub struct ExValue(serde_json::Value);

/// What parsing yields for a line of text: the document in the library's
/// model, or nothing when the text is not JSON. A fixed function of the
/// text: serde_json's grammar is deterministic, later duplicate members win,
/// and with arbitrary precision a number keeps its literal text.
pub uninterp spec fn json_parse_of(s: Seq<char>) -> Option<Json>;

/// The compact one-line text of a JSON value: a fixed function of the value,
/// member order preserved and number literals written unchanged.
pub uninterp spec fn json_text_of(j: Json) -> Seq<char>;

/// Relies on the variants of serde_json::Value: each arm moves one parsed
/// value into the library's own JSON type; a number keeps its literal text
/// (serde_json's arbitrary-precision representation renders it unchanged).
#[verifier::external_body]
fn value_to_json(v: serde_json::Value) -> Json {
    match v {
        serde_json::Value::Null => Json::Null,
        serde_json::Value::Bool(b) => Json::Bool(b),
        serde_json::Value::Number(n) => Json::Num(n.to_string()),
        serde_json::Value::String(s) => Json::Str(s),
        serde_json::Value::Array(a) => Json::Arr(a.into_iter().map(value_to_json).collect()),
        serde_json::Value::Object(o) => Json::Obj(
            o.into_iter().map(|(k, w)| (k, value_to_json(w))).collect(),
        ),
    }
}

/// Relies on the constructors of serde_json::Value and serde_json::Number:
/// each arm moves one value of the library's JSON type into its serde_json
/// counterpart, member order preserved. A kept number literal goes back
/// through serde_json's number parser, which under arbitrary precision keeps
/// it verbatim; text that is no number literal (which the parser never
/// produces) becomes zero rather than broken output.
#[verifier::external_body]
fn json_to_value(j: Json) -> serde_json::Value {
    match j {
        Json::Null => serde_json::Value::Null,
        Json::Bool(b) => serde_json::Value::Bool(b),
        Json::Int(i) => serde_json::Value::Number(serde_json::Number::from(i)),
        Json::Num(s) => serde_json::Value::Number(
            serde_json::from_str(&s).unwrap_or(serde_json::Number::from(0i64)),
        ),
        Json::Str(s) => serde_json::Value::String(s),
        Json::Arr(a) => serde_json::Value::Array(a.into_iter().map(json_to_value).collect()),
        Json::Obj(o) => serde_json::Value::Object(
            o.into_iter().map(|(k, v)| (k, json_to_value(v))).collect(),
        ),
    }
}

/// Relies on serde_json::from_str: whether a line parses, and as what, is
/// decided by the text alone; the error's text is kept.
#[verifier::external_body]
fn parse_text(s: &str) -> (r: Result<Json, String>)
    ensures
        match r {
            Ok(v) => json_parse_of(s@) == Some(v),
            Err(_) => json_parse_of(s@) is None,
        },
{
    serde_json::from_str::<serde_json::Value>(s).map(value_to_json).map_err(|e| e.to_string())
}

/// Relies on serde_json::to_string: the compact text of a value is decided
/// by the value alone; a failure inside serde (which Value's tree cannot
/// provoke) is absorbed as empty text rather than a panic.
#[verifier::external_body]
fn render_text(j: Json) -> (r: String)
    ensures
        r@ == json_text_of(j),
{
    serde_json::to_string(&json_to_value(j)).unwrap_or(String::new())
}

/// Parses one line of text into the library's JSON model, or reports the
/// parse error as text.
pub fn parse_json(s: &str) -> (r: Result<Json, String>)
    ensures
        match r {
            Ok(v) => json_parse_of(s@) == Some(v),
            Err(_) => json_parse_of(s@) is None,
        },
{
    parse_text(s)
}

/// Renders a JSON value as its compact one-line text.
pub fn json_to_string(j: Json) -> (r: String)
    ensures
        r@ == json_text_of(j),
{
    render_text(j)
}

} // verus!
