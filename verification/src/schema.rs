//! The JSON-RPC constants of the debug server: tool schemas and the
//! initialize result.
use vstd::prelude::*;
use crate::json::{array, push_value, string_value, tree, trees, JsonTree, JsonValue, ObjectBuilder};

verus! {

pub open spec fn type_tree(t: Seq<char>) -> JsonTree {
    JsonTree::Object(Seq::empty().push(("type"@, JsonTree::Str(t))))
}

fn type_json(t: &str) -> (r: JsonValue)
    ensures
        tree(r) == type_tree(t@),
{
    let mut b = ObjectBuilder::new();
    b.put("type", string_value(t));
    b.build()
}

pub open spec fn counter_tree() -> JsonTree {
    JsonTree::Object(Seq::empty().push(("type"@, JsonTree::Str("integer"@))).push(("minimum"@, JsonTree::UInt(0))))
}

fn counter_json() -> (r: JsonValue)
    ensures
        tree(r) == counter_tree(),
{
    let mut b = ObjectBuilder::new();
    b.put("type", string_value("integer"));
    b.put("minimum", JsonValue::UInt(0));
    b.build()
}

pub open spec fn frame_schema_tree() -> JsonTree {
    JsonTree::Object(Seq::empty().push(("type"@, JsonTree::Str("object"@))).push(("properties"@, JsonTree::Object(Seq::empty().push(("surface_id"@, type_tree("string"@))).push(("surface_instance_id"@, type_tree("string"@))).push(("revision"@, counter_tree())).push(("frame_index"@, counter_tree())).push(("viewport"@, type_tree("object"@)))))).push(("required"@, JsonTree::Array(Seq::empty().push(JsonTree::Str("surface_id"@)).push(JsonTree::Str("surface_instance_id"@)).push(JsonTree::Str("revision"@)).push(JsonTree::Str("frame_index"@)).push(JsonTree::Str("viewport"@))))).push(("additionalProperties"@, JsonTree::Bool(true))))
}

/// The schema of a frame identity argument.
pub fn frame_schema() -> (r: JsonValue)
    ensures
        tree(r) == frame_schema_tree(),
{
    let mut props = ObjectBuilder::new();
    props.put("surface_id", type_json("string"));
    props.put("surface_instance_id", type_json("string"));
    props.put("revision", counter_json());
    props.put("frame_index", counter_json());
    props.put("viewport", type_json("object"));
    let mut required: Vec<JsonValue> = Vec::new();
    push_value(&mut required, string_value("surface_id"));
    push_value(&mut required, string_value("surface_instance_id"));
    push_value(&mut required, string_value("revision"));
    push_value(&mut required, string_value("frame_index"));
    push_value(&mut required, string_value("viewport"));
    let mut b = ObjectBuilder::new();
    b.put("type", string_value("object"));
    b.put("properties", props.build());
    b.put("required", array(required));
    b.put("additionalProperties", JsonValue::Bool(true));
    b.build()
}

pub open spec fn tool_schema_tree(name: Seq<char>, description: Seq<char>) -> JsonTree {
    JsonTree::Object(Seq::empty().push(("name"@, JsonTree::Str(name))).push(("description"@, JsonTree::Str(description))).push(("inputSchema"@, JsonTree::Object(Seq::empty().push(("type"@, JsonTree::Str("object"@))).push(("properties"@, JsonTree::Object(Seq::empty().push(("frame"@, frame_schema_tree()))))).push(("required"@, JsonTree::Array(Seq::empty().push(JsonTree::Str("frame"@))))).push(("additionalProperties"@, JsonTree::Bool(true)))))))
}

/// A tool that takes a frame identity.
pub fn tool_schema(name: &str, description: &str) -> (r: JsonValue)
    ensures
        tree(r) == tool_schema_tree(name@, description@),
{
    let mut props = ObjectBuilder::new();
    props.put("frame", frame_schema());
    let mut required: Vec<JsonValue> = Vec::new();
    push_value(&mut required, string_value("frame"));
    let mut input = ObjectBuilder::new();
    input.put("type", string_value("object"));
    input.put("properties", props.build());
    input.put("required", array(required));
    input.put("additionalProperties", JsonValue::Bool(true));
    let mut b = ObjectBuilder::new();
    b.put("name", string_value(name));
    b.put("description", string_value(description));
    b.put("inputSchema", input.build());
    b.build()
}

pub open spec fn render_tool_schema_tree(name: Seq<char>, description: Seq<char>) -> JsonTree {
    JsonTree::Object(Seq::empty().push(("name"@, JsonTree::Str(name))).push(("description"@, JsonTree::Str(description))).push(("inputSchema"@, JsonTree::Object(Seq::empty().push(("type"@, JsonTree::Str("object"@))).push(("properties"@, JsonTree::Object(Seq::empty().push(("frame"@, frame_schema_tree())).push(("target"@, type_tree("string"@)))))).push(("required"@, JsonTree::Array(Seq::empty().push(JsonTree::Str("frame"@))))).push(("additionalProperties"@, JsonTree::Bool(true)))))))
}

/// A tool that takes a frame identity and an optional target.
pub fn render_tool_schema(name: &str, description: &str) -> (r: JsonValue)
    ensures
        tree(r) == render_tool_schema_tree(name@, description@),
{
    let mut props = ObjectBuilder::new();
    props.put("frame", frame_schema());
    props.put("target", type_json("string"));
    let mut required: Vec<JsonValue> = Vec::new();
    push_value(&mut required, string_value("frame"));
    let mut input = ObjectBuilder::new();
    input.put("type", string_value("object"));
    input.put("properties", props.build());
    input.put("required", array(required));
    input.put("additionalProperties", JsonValue::Bool(true));
    let mut b = ObjectBuilder::new();
    b.put("name", string_value(name));
    b.put("description", string_value(description));
    b.put("inputSchema", input.build());
    b.build()
}

pub open spec fn screenshot_tool_schema_tree(name: Seq<char>, description: Seq<char>) -> JsonTree {
    JsonTree::Object(Seq::empty().push(("name"@, JsonTree::Str(name))).push(("description"@, JsonTree::Str(description))).push(("inputSchema"@, JsonTree::Object(Seq::empty().push(("type"@, JsonTree::Str("object"@))).push(("properties"@, JsonTree::Object(Seq::empty().push(("frame"@, JsonTree::Object(Seq::empty().push(("oneOf"@, JsonTree::Array(Seq::empty().push(frame_schema_tree()).push(JsonTree::Object(Seq::empty().push(("type"@, JsonTree::Str("string"@))).push(("enum"@, JsonTree::Array(Seq::empty().push(JsonTree::Str("current"@)).push(JsonTree::Str("last"@))))))))))))).push(("target"@, type_tree("string"@)))))).push(("additionalProperties"@, JsonTree::Bool(true)))))))
}

/// The screenshot tool: a frame identity, or `current` or `last`, and an optional target.
pub fn screenshot_tool_schema(name: &str, description: &str) -> (r: JsonValue)
    ensures
        tree(r) == screenshot_tool_schema_tree(name@, description@),
{
    let mut names: Vec<JsonValue> = Vec::new();
    push_value(&mut names, string_value("current"));
    push_value(&mut names, string_value("last"));
    let mut named = ObjectBuilder::new();
    named.put("type", string_value("string"));
    named.put("enum", array(names));
    let mut choices: Vec<JsonValue> = Vec::new();
    push_value(&mut choices, frame_schema());
    push_value(&mut choices, named.build());
    let mut frame = ObjectBuilder::new();
    frame.put("oneOf", array(choices));
    let mut props = ObjectBuilder::new();
    props.put("frame", frame.build());
    props.put("target", type_json("string"));
    let mut input = ObjectBuilder::new();
    input.put("type", string_value("object"));
    input.put("properties", props.build());
    input.put("additionalProperties", JsonValue::Bool(true));
    let mut b = ObjectBuilder::new();
    b.put("name", string_value(name));
    b.put("description", string_value(description));
    b.put("inputSchema", input.build());
    b.build()
}

pub open spec fn default_tools_tree() -> Seq<JsonTree> {
    Seq::empty().push(tool_schema_tree("slipway.debug.status"@, "Read the current Slipway debug status."@)).push(tool_schema_tree("slipway.debug.probe"@, "Request explicit Slipway debug probe products."@)).push(render_tool_schema_tree("slipway.debug.render"@, "Request offscreen render evidence through the app runtime."@)).push(screenshot_tool_schema_tree(
            "slipway.debug.screenshot"@,
            "Capture the root window pixels directly from the next acquired surface texture presentation."@,
        )).push(tool_schema_tree("slipway.debug.control"@, "Submit an input/control event to the app runtime."@)).push(tool_schema_tree(
            "slipway.debug.physical_control"@,
            "Resolve a physical-equivalent debug operation through declared hit/scroll/focus routing."@,
        )).push(tool_schema_tree(
            "slipway.debug.resize"@,
            "Request a viewport resize for a frame identity. No backend currently performs native resizes; the runtime refuses with `resize-unsupported` and the viewport is unchanged."@,
        ))
}

/// The seven debug tools, in order.
pub fn default_tools() -> (r: Vec<JsonValue>)
    ensures
        trees(r@) == default_tools_tree(),
{
    let mut tools: Vec<JsonValue> = Vec::new();
    push_value(&mut tools, tool_schema("slipway.debug.status", "Read the current Slipway debug status."));
    push_value(&mut tools, tool_schema("slipway.debug.probe", "Request explicit Slipway debug probe products."));
    push_value(&mut tools, render_tool_schema("slipway.debug.render", "Request offscreen render evidence through the app runtime."));
    push_value(&mut tools, screenshot_tool_schema(
        "slipway.debug.screenshot",
        "Capture the root window pixels directly from the next acquired surface texture presentation.",
    ));
    push_value(&mut tools, tool_schema("slipway.debug.control", "Submit an input/control event to the app runtime."));
    push_value(&mut tools, tool_schema(
        "slipway.debug.physical_control",
        "Resolve a physical-equivalent debug operation through declared hit/scroll/focus routing.",
    ));
    push_value(&mut tools, tool_schema(
        "slipway.debug.resize",
        "Request a viewport resize for a frame identity. No backend currently performs native resizes; the runtime refuses with `resize-unsupported` and the viewport is unchanged.",
    ));
    tools
}

pub open spec fn initialize_tree() -> JsonTree {
    JsonTree::Object(Seq::empty().push(("protocolVersion"@, JsonTree::Str("2025-11-25"@))).push(("serverInfo"@, JsonTree::Object(Seq::empty().push(("name"@, JsonTree::Str("slipway-debug-mcp"@))).push(("version"@, JsonTree::Str("0.1.0"@)))))).push(("capabilities"@, JsonTree::Object(Seq::empty().push(("tools"@, JsonTree::Object(Seq::empty())))))))
}

/// The result of `initialize`: protocol version, server identity and the tools capability.
pub fn initialize_result() -> (r: JsonValue)
    ensures
        tree(r) == initialize_tree(),
{
    let mut info = ObjectBuilder::new();
    info.put("name", string_value("slipway-debug-mcp"));
    info.put("version", string_value("0.1.0"));
    let mut caps = ObjectBuilder::new();
    caps.put("tools", ObjectBuilder::new().build());
    let mut b = ObjectBuilder::new();
    b.put("protocolVersion", string_value("2025-11-25"));
    b.put("serverInfo", info.build());
    b.put("capabilities", caps.build());
    b.build()
}

} // verus!
