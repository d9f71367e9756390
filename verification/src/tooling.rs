//! The tool-invocation descriptor advertised to the model.
//!
//! One synthetic function, `mcp_invoke`, is the only callable the model ever
//! sees; its parameter schema demands the `server`, `tool` and `arguments`
//! members that [`crate::payload`] extracts. The descriptor is pure data,
//! built deterministically and reused for every request.

use vstd::prelude::*;

use crate::json::JVal;
use crate::json::JsonValue;
use crate::json::jfields_of;
use crate::json::jval_of;
use crate::json::jvals_of;

verus! {

/// The one function advertised to the model, with its JSON-schema
/// parameters.
pub struct ToolDescriptor {
    pub name: String,
    pub description: String,
    pub parameters: JsonValue,
}

/// One leaf of the parameter schema: a member's type and description.
pub open spec fn spec_schema_leaf(ty: Seq<char>, desc: Seq<char>) -> JVal {
    JVal::Obj(seq![("type"@, JVal::Str(ty)), ("description"@, JVal::Str(desc))])
}

/// The descriptor's parameter schema: an object type requiring the string
/// members `server` and `tool` and the object member `arguments`.
pub open spec fn spec_invoke_schema() -> JVal {
    JVal::Obj(
        seq![
            ("type"@, JVal::Str("object"@)),
            (
                "required"@,
                JVal::Arr(
                    seq![
                        JVal::Str("server"@),
                        JVal::Str("tool"@),
                        JVal::Str("arguments"@),
                    ],
                ),
            ),
            (
                "properties"@,
                JVal::Obj(
                    seq![
                        (
                            "server"@,
                            spec_schema_leaf(
                                "string"@,
                                "MCP server alias (always 'iplocate' here)"@,
                            ),
                        ),
                        ("tool"@, spec_schema_leaf("string"@, "Tool name on that MCP server"@)),
                        ("arguments"@, spec_schema_leaf("object"@, "Tool arguments JSON"@)),
                    ],
                ),
            ),
        ],
    )
}

/// Builds one schema leaf.
fn schema_leaf(ty: &str, desc: &str) -> (r: JsonValue)
    ensures
        jval_of(r) == spec_schema_leaf(ty@, desc@),
{
    let mut fs: Vec<(String, JsonValue)> = Vec::new();
    fs.push((String::from_str("type"), JsonValue::Str(String::from_str(ty))));
    fs.push((String::from_str("description"), JsonValue::Str(String::from_str(desc))));
    let r = JsonValue::Obj(fs);
    proof {
        assert(jfields_of(fs) =~= seq![
            ("type"@, JVal::Str(ty@)),
            ("description"@, JVal::Str(desc@)),
        ]);
    }
    r
}

/// Builds the parameter schema object.
fn invoke_schema() -> (r: JsonValue)
    ensures
        jval_of(r) == spec_invoke_schema(),
{
    let mut required: Vec<JsonValue> = Vec::new();
    required.push(JsonValue::Str(String::from_str("server")));
    required.push(JsonValue::Str(String::from_str("tool")));
    required.push(JsonValue::Str(String::from_str("arguments")));
    proof {
        assert(jvals_of(required) =~= seq![
            JVal::Str("server"@),
            JVal::Str("tool"@),
            JVal::Str("arguments"@),
        ]);
    }

    let mut properties: Vec<(String, JsonValue)> = Vec::new();
    properties.push(
        (
            String::from_str("server"),
            schema_leaf("string", "MCP server alias (always 'iplocate' here)"),
        ),
    );
    properties.push((String::from_str("tool"), schema_leaf("string", "Tool name on that MCP server")));
    properties.push((String::from_str("arguments"), schema_leaf("object", "Tool arguments JSON")));
    proof {
        assert(jfields_of(properties) =~= seq![
            (
                "server"@,
                spec_schema_leaf("string"@, "MCP server alias (always 'iplocate' here)"@),
            ),
            ("tool"@, spec_schema_leaf("string"@, "Tool name on that MCP server"@)),
            ("arguments"@, spec_schema_leaf("object"@, "Tool arguments JSON"@)),
        ]);
    }

    let mut fs: Vec<(String, JsonValue)> = Vec::new();
    fs.push((String::from_str("type"), JsonValue::Str(String::from_str("object"))));
    fs.push((String::from_str("required"), JsonValue::Arr(required)));
    fs.push((String::from_str("properties"), JsonValue::Obj(properties)));
    let r = JsonValue::Obj(fs);
    proof {
        assert(jfields_of(fs) =~= spec_invoke_schema()->Obj_0);
    }
    r
}

/// The single synthetic function advertised to the model: `mcp_invoke`,
/// which expresses "call tool T on server S with arguments A".
pub fn mcp_invoke_tool() -> (r: ToolDescriptor)
    ensures
        r.name@ == "mcp_invoke"@,
        r.description@ == "Invoke a tool on the IPLocate MCP server"@,
        jval_of(r.parameters) == spec_invoke_schema(),
{
    ToolDescriptor {
        name: String::from_str("mcp_invoke"),
        description: String::from_str("Invoke a tool on the IPLocate MCP server"),
        parameters: invoke_schema(),
    }
}

} // verus!
