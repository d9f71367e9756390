//! Plain-data model of JSON documents.
//!
//! Tool-call arguments, backend results and the tool descriptor's schema are
//! all JSON. The library holds such documents as [`JsonValue`], whose
//! mathematical model is [`JVal`]; parsing and rendering of JSON text are the
//! only steps delegated to an outside crate.

use vstd::prelude::*;

verus! {

/// A JSON document held as plain library data. A number keeps its decimal
/// text, so that nothing is rounded and no floating point enters the library.
/// An object keeps its members in order as a list of key/value pairs.
#[derive(Debug, PartialEq, Eq)]
pub enum JsonValue {
    Null,
    Bool(bool),
    Num(String),
    Str(String),
    Arr(Vec<JsonValue>),
    Obj(Vec<(String, JsonValue)>),
}

/// The mathematical model of a JSON document.
pub enum JVal {
    Null,
    Bool(bool),
    Num(Seq<char>),
    Str(Seq<char>),
    Arr(Seq<JVal>),
    Obj(Seq<(Seq<char>, JVal)>),
}

/// The model of a document: each text becomes its sequence of characters.
pub open spec fn jval_of(v: JsonValue) -> JVal
    decreases v,
{
    match v {
        JsonValue::Null => JVal::Null,
        JsonValue::Bool(b) => JVal::Bool(b),
        JsonValue::Num(s) => JVal::Num(s@),
        JsonValue::Str(s) => JVal::Str(s@),
        JsonValue::Arr(xs) => JVal::Arr(jvals_of(xs)),
        JsonValue::Obj(fs) => JVal::Obj(jfields_of(fs)),
    }
}

/// The models of an array's elements, in order. The closure must be total,
/// so an index outside the array is mapped to `null`; only the in-range part
/// is ever read.
pub open spec fn jvals_of(xs: Vec<JsonValue>) -> Seq<JVal>
    decreases xs,
{
    Seq::new(
        xs@.len(),
        |i: int|
            if 0 <= i < xs@.len() {
                jval_of(xs[i])
            } else {
                JVal::Null
            },
    )
}

/// The models of an object's members, in order; out of range as in
/// [`jvals_of`].
pub open spec fn jfields_of(fs: Vec<(String, JsonValue)>) -> Seq<(Seq<char>, JVal)>
    decreases fs,
{
    Seq::new(
        fs@.len(),
        |i: int|
            if 0 <= i < fs@.len() {
                jfield_of(fs[i])
            } else {
                (Seq::<char>::empty(), JVal::Null)
            },
    )
}

/// The model of one object member.
pub open spec fn jfield_of(f: (String, JsonValue)) -> (Seq<char>, JVal)
    decreases f,
{
    (f.0@, jval_of(f.1))
}

impl DeepView for JsonValue {
    type V = JVal;

    open spec fn deep_view(&self) -> JVal {
        jval_of(*self)
    }
}

/// The first value bound to `key` in an object's member list, if any.
pub open spec fn obj_lookup(fs: Seq<(Seq<char>, JVal)>, key: Seq<char>) -> Option<JVal>
    decreases fs.len(),
{
    if fs.len() == 0 {
        None
    } else if fs[0].0 == key {
        Some(fs[0].1)
    } else {
        obj_lookup(fs.drop_first(), key)
    }
}

proof fn lemma_obj_lookup_hit(fs: Seq<(Seq<char>, JVal)>, key: Seq<char>, i: int)
    requires
        0 <= i < fs.len(),
        fs[i].0 == key,
        forall|j: int| 0 <= j < i ==> (#[trigger] fs[j]).0 != key,
    ensures
        obj_lookup(fs, key) == Some(fs[i].1),
    decreases i,
{
    if i > 0 {
        lemma_obj_lookup_hit(fs.drop_first(), key, i - 1);
    }
}

proof fn lemma_obj_lookup_miss(fs: Seq<(Seq<char>, JVal)>, key: Seq<char>)
    requires
        forall|j: int| 0 <= j < fs.len() ==> (#[trigger] fs[j]).0 != key,
    ensures
        obj_lookup(fs, key) is None,
    decreases fs.len(),
{
    if fs.len() > 0 {
        lemma_obj_lookup_miss(fs.drop_first(), key);
    }
}

/// Finds the first member bound to `key`, as an index into the member list.
fn json_obj_index(fields: &Vec<(String, JsonValue)>, key: &String) -> (r: Option<usize>)
    ensures
        match r {
            Some(i) => {
                &&& i < fields@.len()
                &&& obj_lookup(jfields_of(*fields), key@) == Some(
                    jfields_of(*fields)[i as int].1,
                )
            },
            None => obj_lookup(jfields_of(*fields), key@) is None,
        },
{
    let ghost model = jfields_of(*fields);
    let mut i: usize = 0;
    while i < fields.len()
        invariant
            0 <= i <= fields.len(),
            model == jfields_of(*fields),
            forall|j: int| 0 <= j < i ==> (#[trigger] model[j]).0 != key@,
        decreases fields.len() - i,
    {
        assert(model[i as int] == (fields@[i as int].0@, fields@[i as int].1.deep_view()));
        if fields[i].0 == *key {
            proof {
                lemma_obj_lookup_hit(model, key@, i as int);
            }
            return Some(i);
        }
        i = i + 1;
    }
    proof {
        lemma_obj_lookup_miss(model, key@);
    }
    None
}

/// Looks `key` up among an object's members; the first binding wins.
pub fn json_obj_get<'a>(fields: &'a Vec<(String, JsonValue)>, key: &String) -> (r: Option<
    &'a JsonValue,
>)
    ensures
        match r {
            Some(v) => obj_lookup(jfields_of(*fields), key@) == Some(jval_of(*v)),
            None => obj_lookup(jfields_of(*fields), key@) is None,
        },
{
    match json_obj_index(fields, key) {
        Some(i) => {
            assert(jfields_of(*fields)[i as int] == (
                fields@[i as int].0@,
                fields@[i as int].1.deep_view(),
            ));
            Some(&fields[i].1)
        },
        None => None,
    }
}

/// Looks `key` up among an object's members and hands the bound value out by
/// value; the first binding wins.
pub fn json_obj_take(fields: Vec<(String, JsonValue)>, key: &String) -> (r: Option<JsonValue>)
    ensures
        match r {
            Some(v) => obj_lookup(jfields_of(fields), key@) == Some(jval_of(v)),
            None => obj_lookup(jfields_of(fields), key@) is None,
        },
{
    match json_obj_index(&fields, key) {
        Some(i) => {
            assert(jfields_of(fields)[i as int] == (
                fields@[i as int].0@,
                fields@[i as int].1.deep_view(),
            ));
            let mut fs = fields;
            let pair = fs.remove(i);
            Some(pair.1)
        },
        None => None,
    }
}

/// A document models an object exactly when it is one.
pub proof fn lemma_jval_variant(v: JsonValue)
    ensures
        (jval_of(v) is Obj) <==> (v matches JsonValue::Obj(_)),
{
    match v {
        JsonValue::Null => {},
        JsonValue::Bool(_) => {},
        JsonValue::Num(_) => {},
        JsonValue::Str(_) => {},
        JsonValue::Arr(_) => {},
        JsonValue::Obj(_) => {},
    }
}

/// The empty JSON object.
pub fn empty_object() -> (r: JsonValue)
    ensures
        r.deep_view() == JVal::Obj(Seq::<(Seq<char>, JVal)>::empty()),
{
    let r = JsonValue::Obj(Vec::new());
    proof {
        assert(r.deep_view() matches JVal::Obj(fs) && fs =~= Seq::<(Seq<char>, JVal)>::empty());
    }
    r
}

/// Declares `serde_json`'s document type, so that the conversions below may
/// name it; the library never looks inside such a value.
#[verifier::external_type_specification]
#[verifier::external_body]
pub struct ExSerdeValue(serde_json::Value);

/// What `serde_json` parses a given text into, if anything.
pub uninterp spec fn json_parse(s: Seq<char>) -> Option<JVal>;

/// How `serde_json` renders a given document as compact JSON text.
pub uninterp spec fn json_text(v: JVal) -> Seq<char>;

/// Conversion used by the parsing wrapper below: rebuilds the parsed
/// `serde_json` document as plain library data, arm by arm.
#[verifier::external_body]
fn from_serde(v: &serde_json::Value) -> JsonValue {
    match v {
        serde_json::Value::Null => JsonValue::Null,
        serde_json::Value::Bool(b) => JsonValue::Bool(*b),
        serde_json::Value::Number(n) => JsonValue::Num(n.to_string()),
        serde_json::Value::String(s) => JsonValue::Str(s.clone()),
        serde_json::Value::Array(xs) => JsonValue::Arr(xs.iter().map(from_serde).collect()),
        serde_json::Value::Object(m) => JsonValue::Obj(
            m.iter().map(|(k, w)| (k.clone(), from_serde(w))).collect(),
        ),
    }
}

/// Conversion used by the rendering wrapper below: rebuilds the document as a
/// `serde_json` value, arm by arm; a number whose text `serde_json` cannot
/// read back becomes `null`.
#[verifier::external_body]
fn to_serde(v: &JsonValue) -> serde_json::Value {
    match v {
        JsonValue::Null => serde_json::Value::Null,
        JsonValue::Bool(b) => serde_json::Value::Bool(*b),
        JsonValue::Num(s) => match serde_json::from_str::<serde_json::Number>(s) {
            Ok(n) => serde_json::Value::Number(n),
            Err(_) => serde_json::Value::Null,
        },
        JsonValue::Str(s) => serde_json::Value::String(s.clone()),
        JsonValue::Arr(xs) => serde_json::Value::Array(xs.iter().map(to_serde).collect()),
        JsonValue::Obj(fs) => serde_json::Value::Object(
            fs.iter().map(|(k, w)| (k.clone(), to_serde(w))).collect(),
        ),
    }
}

/// Relies on `serde_json::from_str`: parses JSON text, or fails exactly on
/// malformed input; the outcome depends on the text alone.
#[verifier::external_body]
pub(crate) fn parse_json(s: &str) -> (r: Option<JsonValue>)
    ensures
        match r {
            Some(v) => json_parse(s@) == Some(v.deep_view()),
            None => json_parse(s@) is None,
        },
{
    match serde_json::from_str::<serde_json::Value>(s) {
        Ok(v) => Some(from_serde(&v)),
        Err(_) => None,
    }
}

/// Relies on `serde_json::to_string`: renders a document as compact JSON
/// text; the text depends on the document alone. Rendering a `serde_json`
/// value cannot fail, so the error arm is never taken.
#[verifier::external_body]
pub(crate) fn render_json(v: &JsonValue) -> (r: String)
    ensures
        r@ == json_text(v.deep_view()),
{
    match serde_json::to_string(&to_serde(v)) {
        Ok(s) => s,
        Err(_) => String::new(),
    }
}

/// Parses a text as JSON; `None` exactly on malformed input.
pub fn parse_json_text(s: &str) -> (r: Option<JsonValue>)
    ensures
        match r {
            Some(v) => json_parse(s@) == Some(v.deep_view()),
            None => json_parse(s@) is None,
        },
{
    parse_json(s)
}

/// Renders a document as compact JSON text.
pub fn json_text_of(v: &JsonValue) -> (r: String)
    ensures
        r@ == json_text(v.deep_view()),
{
    render_json(v)
}

} // verus!
