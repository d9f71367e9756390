//! The normalized form of a model-issued tool call.
//!
//! A tool call's argument text is parsed as JSON and its `server`, `tool` and
//! `arguments` members are extracted into a [`BridgeInvokePayload`]; anything
//! absent, ill-typed or unparseable degrades to a safe default rather than
//! failing the batch.

use vstd::prelude::*;

use crate::json::JVal;
use crate::json::JsonValue;
use crate::json::empty_object;
use crate::json::jfields_of;
use crate::json::json_obj_get;
use crate::json::json_obj_take;
use crate::json::json_parse;
use crate::json::jval_of;
use crate::json::obj_lookup;
use crate::json::parse_json_text;

verus! {

/// The normalized form a tool call is parsed into before dispatch: which
/// backend alias to address, which tool to run, and the tool's JSON
/// arguments.
#[derive(Debug, PartialEq, Eq)]
pub struct BridgeInvokePayload {
    pub server: String,
    pub tool: String,
    pub arguments: JsonValue,
}

/// The model of a payload.
pub struct PayloadModel {
    pub server: Seq<char>,
    pub tool: Seq<char>,
    pub arguments: JVal,
}

impl DeepView for BridgeInvokePayload {
    type V = PayloadModel;

    open spec fn deep_view(&self) -> PayloadModel {
        PayloadModel {
            server: self.server@,
            tool: self.tool@,
            arguments: jval_of(self.arguments),
        }
    }
}

/// The string bound to `key`, or `dflt` where the member is absent or not a
/// string.
pub open spec fn string_member_or(
    fs: Seq<(Seq<char>, JVal)>,
    key: Seq<char>,
    dflt: Seq<char>,
) -> Seq<char> {
    match obj_lookup(fs, key) {
        Some(JVal::Str(s)) => s,
        _ => dflt,
    }
}

/// The value bound to `key`, or the empty object where the member is absent.
pub open spec fn member_or_empty(fs: Seq<(Seq<char>, JVal)>, key: Seq<char>) -> JVal {
    match obj_lookup(fs, key) {
        Some(v) => v,
        None => JVal::Obj(Seq::<(Seq<char>, JVal)>::empty()),
    }
}

/// The payload that a parsed argument text denotes. A text that is no JSON
/// object at all — malformed, or of another JSON type — yields the default
/// payload; within an object, a missing or non-string `server` defaults to
/// `"iplocate"`, a missing or non-string `tool` to the empty name, and a
/// missing `arguments` to the empty object.
pub open spec fn payload_of_parsed(parsed: Option<JVal>) -> PayloadModel {
    match parsed {
        Some(JVal::Obj(fs)) => PayloadModel {
            server: string_member_or(fs, "server"@, "iplocate"@),
            tool: string_member_or(fs, "tool"@, Seq::<char>::empty()),
            arguments: member_or_empty(fs, "arguments"@),
        },
        _ => PayloadModel {
            server: "iplocate"@,
            tool: Seq::<char>::empty(),
            arguments: JVal::Obj(Seq::<(Seq<char>, JVal)>::empty()),
        },
    }
}

/// Extracts the string member `key`, cloning it out of the object, with
/// `dflt` as the fallback.
fn string_member_or_exec(fs: &Vec<(String, JsonValue)>, key: &str, dflt: &str) -> (r: String)
    ensures
        r@ == string_member_or(jfields_of(*fs), key@, dflt@),
{
    let k = String::from_str(key);
    match json_obj_get(fs, &k) {
        Some(JsonValue::Str(s)) => s.clone(),
        _ => String::from_str(dflt),
    }
}

/// Builds the payload a parsed argument text denotes; `None` stands for a
/// text that did not parse.
pub fn payload_from_json(parsed: Option<JsonValue>) -> (r: BridgeInvokePayload)
    ensures
        r.deep_view() == payload_of_parsed(parsed.deep_view()),
{
    match parsed {
        Some(JsonValue::Obj(fs)) => {
            let server = string_member_or_exec(&fs, "server", "iplocate");
            let tool = string_member_or_exec(&fs, "tool", "");
            proof {
                reveal_strlit("");
                assert(""@ =~= Seq::<char>::empty());
            }
            let k = String::from_str("arguments");
            let arguments = match json_obj_take(fs, &k) {
                Some(v) => v,
                None => empty_object(),
            };
            BridgeInvokePayload { server, tool, arguments }
        },
        _ => {
            proof {
                match &parsed {
                    Some(v) => crate::json::lemma_jval_variant(*v),
                    None => {},
                }
            }
            BridgeInvokePayload {
                server: String::from_str("iplocate"),
                tool: String::new(),
                arguments: empty_object(),
            }
        },
    }
}

/// Parses a tool call's argument text and builds the payload it denotes;
/// parse failure degrades to the default payload.
pub fn payload_from_text(args_text: &str) -> (r: BridgeInvokePayload)
    ensures
        r.deep_view() == payload_of_parsed(json_parse(args_text@)),
{
    let parsed = parse_json_text(args_text);
    proof {
        match &parsed {
            Some(_) => {},
            None => {},
        }
        assert(parsed.deep_view() == json_parse(args_text@));
    }
    payload_from_json(parsed)
}

/// The JSON object form of a payload, as posted to the HTTP bridge.
pub open spec fn payload_jval(p: PayloadModel) -> JVal {
    JVal::Obj(
        seq![
            ("server"@, JVal::Str(p.server)),
            ("tool"@, JVal::Str(p.tool)),
            ("arguments"@, p.arguments),
        ],
    )
}

/// Renders a payload as the JSON object `{server, tool, arguments}`.
pub fn payload_to_json(p: BridgeInvokePayload) -> (r: JsonValue)
    ensures
        jval_of(r) == payload_jval(p.deep_view()),
{
    let ghost model = p.deep_view();
    let mut fs: Vec<(String, JsonValue)> = Vec::new();
    fs.push((String::from_str("server"), JsonValue::Str(p.server)));
    fs.push((String::from_str("tool"), JsonValue::Str(p.tool)));
    fs.push((String::from_str("arguments"), p.arguments));
    let r = JsonValue::Obj(fs);
    proof {
        assert(jfields_of(fs) =~= seq![
            ("server"@, JVal::Str(model.server)),
            ("tool"@, JVal::Str(model.tool)),
            ("arguments"@, model.arguments),
        ]);
    }
    r
}

/// Building a payload back from its JSON object form recovers the payload:
/// extraction inverts construction.
pub proof fn lemma_payload_roundtrip(p: PayloadModel)
    ensures
        payload_of_parsed(Some(payload_jval(p))) == p,
{
    reveal_strlit("server");
    reveal_strlit("tool");
    reveal_strlit("arguments");
    reveal_strlit("iplocate");
    reveal_with_fuel(obj_lookup, 4);
    let fs = seq![
        ("server"@, JVal::Str(p.server)),
        ("tool"@, JVal::Str(p.tool)),
        ("arguments"@, p.arguments),
    ];
    let s2 = seq![("tool"@, JVal::Str(p.tool)), ("arguments"@, p.arguments)];
    let s3 = seq![("arguments"@, p.arguments)];
    assert(fs.drop_first() =~= s2);
    assert(s2.drop_first() =~= s3);
    assert(obj_lookup(s3, "arguments"@) == Some(p.arguments));
    assert("server"@.len() == 6 && "tool"@.len() == 4 && "arguments"@.len() == 9);
    assert(obj_lookup(s2, "arguments"@) == Some(p.arguments));
    assert(obj_lookup(s2, "tool"@) == Some(JVal::Str(p.tool)));
    assert(obj_lookup(fs, "server"@) == Some(JVal::Str(p.server)));
    assert(obj_lookup(fs, "tool"@) == Some(JVal::Str(p.tool)));
    assert(obj_lookup(fs, "arguments"@) == Some(p.arguments));
}

} // verus!
