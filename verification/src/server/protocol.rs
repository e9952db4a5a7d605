//! JSON-RPC messages and the MCP tool catalog.
use vstd::prelude::*;
use vstd::string::StringExecFns;
use crate::server::json::{
    field_list, fields_view, item_list, json_array, json_object, json_str, opt_view, push_field, push_item,
    seq_of1, seq_of2, seq_of3, seq_of4, seq_of5, seq_of6, seq_of7, seq_of8, seq_of9, JsonNumber, JsonValue,
    JsonView, NumberKind,
};

verus! {

/// A JSON-RPC request.
#[derive(Debug)]
pub struct JsonRpcRequest {
    pub jsonrpc: String,
    pub id: Option<JsonValue>,
    pub method: String,
    pub params: Option<JsonValue>,
}

/// The mathematical form of a request.
pub struct RequestView {
    pub jsonrpc: Seq<char>,
    pub id: Option<JsonView>,
    pub method: Seq<char>,
    pub params: Option<JsonView>,
}

impl JsonRpcRequest {
    pub open spec fn view(self) -> RequestView {
        RequestView {
            jsonrpc: self.jsonrpc@,
            id: opt_view(self.id),
            method: self.method@,
            params: opt_view(self.params),
        }
    }
}

/// A JSON-RPC error object.
#[derive(Debug)]
pub struct JsonRpcError {
    pub code: i64,
    pub message: String,
    pub data: Option<JsonValue>,
}

/// The mathematical form of an error object.
pub struct ErrorView {
    pub code: i64,
    pub message: Seq<char>,
    pub data: Option<JsonView>,
}

impl JsonRpcError {
    pub open spec fn view(self) -> ErrorView {
        ErrorView { code: self.code, message: self.message@, data: opt_view(self.data) }
    }
}

/// A JSON-RPC response: a result or an error.
#[derive(Debug)]
pub struct JsonRpcResponse {
    pub jsonrpc: String,
    pub id: Option<JsonValue>,
    pub result: Option<JsonValue>,
    pub error: Option<JsonRpcError>,
}

/// The mathematical form of a response.
pub struct ResponseView {
    pub jsonrpc: Seq<char>,
    pub id: Option<JsonView>,
    pub result: Option<JsonView>,
    pub error: Option<ErrorView>,
}

impl JsonRpcResponse {
    pub open spec fn view(self) -> ResponseView {
        ResponseView {
            jsonrpc: self.jsonrpc@,
            id: opt_view(self.id),
            result: opt_view(self.result),
            error: match self.error {
                Some(e) => Some(e.view()),
                None => None,
            },
        }
    }
}

/// A tool that MCP clients may call.
#[derive(Debug)]
pub struct McpTool {
    pub name: String,
    pub description: String,
    pub input_schema: JsonValue,
}

/// The mathematical form of a tool.
pub struct ToolView {
    pub name: Seq<char>,
    pub description: Seq<char>,
    pub input_schema: JsonView,
}

impl McpTool {
    pub open spec fn view(self) -> ToolView {
        ToolView { name: self.name@, description: self.description@, input_schema: self.input_schema@ }
    }
}

/// The views of a sequence of tools.
pub open spec fn tools_view(tools: Seq<McpTool>) -> Seq<ToolView> {
    Seq::new(tools.len(), |i: int| tools[i].view())
}

fn push_tool(tools: &mut Vec<McpTool>, name: &str, description: &str, input_schema: JsonValue)
    ensures
        tools_view(final(tools)@) == tools_view(old(tools)@).push(
            ToolView { name: name@, description: description@, input_schema: input_schema@ },
        ),
{
    let ghost before = tools@;
    tools.push(McpTool { name: String::from_str(name), description: String::from_str(description), input_schema });
    assert(tools_view(tools@) =~= tools_view(before).push(
        ToolView { name: name@, description: description@, input_schema: input_schema@ },
    ));
}

/// The input schema of `desktop_capture_screen`.
pub open spec fn capture_screen_schema() -> JsonView {
    JsonView::Object(seq_of2(("type"@, JsonView::Str("object"@)), ("properties"@, JsonView::Object(seq_of3(("target_app"@, JsonView::Object(seq_of2(("type"@, JsonView::Str("string"@)), ("description"@, JsonView::Str("Target application name or bundle ID"@))))), ("window_id"@, JsonView::Object(seq_of2(("type"@, JsonView::Str("integer"@)), ("description"@, JsonView::Str("Optional specific window ID"@))))), ("format"@, JsonView::Object(seq_of3(("type"@, JsonView::Str("string"@)), ("enum"@, JsonView::Array(seq_of2(JsonView::Str("png"@), JsonView::Str("jpeg"@)))), ("default"@, JsonView::Str("png"@))))))))))
}

fn build_capture_screen_schema() -> (v: JsonValue)
    ensures
        v@ == capture_screen_schema(),
{
    let mut v3 = field_list();
    push_field(&mut v3, "type", json_str("string"));
    push_field(&mut v3, "description", json_str("Target application name or bundle ID"));
    let v4 = json_object(v3);
    let mut v5 = field_list();
    push_field(&mut v5, "type", json_str("integer"));
    push_field(&mut v5, "description", json_str("Optional specific window ID"));
    let v6 = json_object(v5);
    let mut v8 = item_list();
    push_item(&mut v8, json_str("png"));
    push_item(&mut v8, json_str("jpeg"));
    let v9 = json_array(v8);
    let mut v7 = field_list();
    push_field(&mut v7, "type", json_str("string"));
    push_field(&mut v7, "enum", v9);
    push_field(&mut v7, "default", json_str("png"));
    let v10 = json_object(v7);
    let mut v2 = field_list();
    push_field(&mut v2, "target_app", v4);
    push_field(&mut v2, "window_id", v6);
    push_field(&mut v2, "format", v10);
    let v11 = json_object(v2);
    let mut v1 = field_list();
    push_field(&mut v1, "type", json_str("object"));
    push_field(&mut v1, "properties", v11);
    let v12 = json_object(v1);
    v12
}

/// The input schema of `desktop_mouse_action`.
pub open spec fn mouse_action_schema() -> JsonView {
    JsonView::Object(seq_of3(("type"@, JsonView::Str("object"@)), ("properties"@, JsonView::Object(seq_of9(("action"@, JsonView::Object(seq_of2(("type"@, JsonView::Str("string"@)), ("enum"@, JsonView::Array(seq_of7(JsonView::Str("move"@), JsonView::Str("click"@), JsonView::Str("double_click"@), JsonView::Str("triple_click"@), JsonView::Str("right_click"@), JsonView::Str("drag"@), JsonView::Str("scroll"@))))))), ("coordinate"@, JsonView::Object(seq_of3(("type"@, JsonView::Str("object"@)), ("properties"@, JsonView::Object(seq_of2(("x"@, JsonView::Object(seq_of2(("type"@, JsonView::Str("number"@)), ("description"@, JsonView::Str("X coordinate in window (or screen if screen_absolute)"@))))), ("y"@, JsonView::Object(seq_of2(("type"@, JsonView::Str("number"@)), ("description"@, JsonView::Str("Y coordinate in window (or screen if screen_absolute)"@)))))))), ("required"@, JsonView::Array(seq_of2(JsonView::Str("x"@), JsonView::Str("y"@))))))), ("coordinate_space"@, JsonView::Object(seq_of4(("type"@, JsonView::Str("string"@)), ("enum"@, JsonView::Array(seq_of3(JsonView::Str("window_relative"@), JsonView::Str("screen_absolute"@), JsonView::Str("normalized_1000"@)))), ("default"@, JsonView::Str("window_relative"@)), ("description"@, JsonView::Str("Coordinate system. 'window_relative' (default), 'screen_absolute', or 'normalized_1000' (0-1000 scale)"@))))), ("include_screenshot"@, JsonView::Object(seq_of3(("type"@, JsonView::Str("boolean"@)), ("default"@, JsonView::Bool(false)), ("description"@, JsonView::Str("If true, bundle a fresh screenshot of the target window/screen in the tool response"@))))), ("button"@, JsonView::Object(seq_of3(("type"@, JsonView::Str("string"@)), ("enum"@, JsonView::Array(seq_of3(JsonView::Str("left"@), JsonView::Str("right"@), JsonView::Str("middle"@)))), ("default"@, JsonView::Str("left"@))))), ("click_count"@, JsonView::Object(seq_of2(("type"@, JsonView::Str("integer"@)), ("default"@, JsonView::Number(JsonNumber { kind: NumberKind::PosInt(1), f64_bits: 0x3ff0000000000000 }))))), ("scroll_delta"@, JsonView::Object(seq_of2(("type"@, JsonView::Str("object"@)), ("properties"@, JsonView::Object(seq_of2(("dx"@, JsonView::Object(seq_of1(("type"@, JsonView::Str("integer"@))))), ("dy"@, JsonView::Object(seq_of1(("type"@, JsonView::Str("integer"@))))))))))), ("target_app"@, JsonView::Object(seq_of2(("type"@, JsonView::Str("string"@)), ("description"@, JsonView::Str("Target application name to deliver input to and calculate relative coordinates"@))))), ("window_id"@, JsonView::Object(seq_of2(("type"@, JsonView::Str("integer"@)), ("description"@, JsonView::Str("Optional specific window ID"@)))))))), ("required"@, JsonView::Array(seq_of2(JsonView::Str("action"@), JsonView::Str("coordinate"@))))))
}

fn build_mouse_action_schema() -> (v: JsonValue)
    ensures
        v@ == mouse_action_schema(),
{
    let mut v4 = item_list();
    push_item(&mut v4, json_str("move"));
    push_item(&mut v4, json_str("click"));
    push_item(&mut v4, json_str("double_click"));
    push_item(&mut v4, json_str("triple_click"));
    push_item(&mut v4, json_str("right_click"));
    push_item(&mut v4, json_str("drag"));
    push_item(&mut v4, json_str("scroll"));
    let v5 = json_array(v4);
    let mut v3 = field_list();
    push_field(&mut v3, "type", json_str("string"));
    push_field(&mut v3, "enum", v5);
    let v6 = json_object(v3);
    let mut v9 = field_list();
    push_field(&mut v9, "type", json_str("number"));
    push_field(&mut v9, "description", json_str("X coordinate in window (or screen if screen_absolute)"));
    let v10 = json_object(v9);
    let mut v11 = field_list();
    push_field(&mut v11, "type", json_str("number"));
    push_field(&mut v11, "description", json_str("Y coordinate in window (or screen if screen_absolute)"));
    let v12 = json_object(v11);
    let mut v8 = field_list();
    push_field(&mut v8, "x", v10);
    push_field(&mut v8, "y", v12);
    let v13 = json_object(v8);
    let mut v14 = item_list();
    push_item(&mut v14, json_str("x"));
    push_item(&mut v14, json_str("y"));
    let v15 = json_array(v14);
    let mut v7 = field_list();
    push_field(&mut v7, "type", json_str("object"));
    push_field(&mut v7, "properties", v13);
    push_field(&mut v7, "required", v15);
    let v16 = json_object(v7);
    let mut v18 = item_list();
    push_item(&mut v18, json_str("window_relative"));
    push_item(&mut v18, json_str("screen_absolute"));
    push_item(&mut v18, json_str("normalized_1000"));
    let v19 = json_array(v18);
    let mut v17 = field_list();
    push_field(&mut v17, "type", json_str("string"));
    push_field(&mut v17, "enum", v19);
    push_field(&mut v17, "default", json_str("window_relative"));
    push_field(&mut v17, "description", json_str("Coordinate system. 'window_relative' (default), 'screen_absolute', or 'normalized_1000' (0-1000 scale)"));
    let v20 = json_object(v17);
    let mut v21 = field_list();
    push_field(&mut v21, "type", json_str("boolean"));
    push_field(&mut v21, "default", JsonValue::Bool(false));
    push_field(&mut v21, "description", json_str("If true, bundle a fresh screenshot of the target window/screen in the tool response"));
    let v22 = json_object(v21);
    let mut v24 = item_list();
    push_item(&mut v24, json_str("left"));
    push_item(&mut v24, json_str("right"));
    push_item(&mut v24, json_str("middle"));
    let v25 = json_array(v24);
    let mut v23 = field_list();
    push_field(&mut v23, "type", json_str("string"));
    push_field(&mut v23, "enum", v25);
    push_field(&mut v23, "default", json_str("left"));
    let v26 = json_object(v23);
    let mut v27 = field_list();
    push_field(&mut v27, "type", json_str("integer"));
    push_field(&mut v27, "default", JsonValue::Number(JsonNumber { kind: NumberKind::PosInt(1), f64_bits: 0x3ff0000000000000 }));
    let v28 = json_object(v27);
    let mut v31 = field_list();
    push_field(&mut v31, "type", json_str("integer"));
    let v32 = json_object(v31);
    let mut v33 = field_list();
    push_field(&mut v33, "type", json_str("integer"));
    let v34 = json_object(v33);
    let mut v30 = field_list();
    push_field(&mut v30, "dx", v32);
    push_field(&mut v30, "dy", v34);
    let v35 = json_object(v30);
    let mut v29 = field_list();
    push_field(&mut v29, "type", json_str("object"));
    push_field(&mut v29, "properties", v35);
    let v36 = json_object(v29);
    let mut v37 = field_list();
    push_field(&mut v37, "type", json_str("string"));
    push_field(&mut v37, "description", json_str("Target application name to deliver input to and calculate relative coordinates"));
    let v38 = json_object(v37);
    let mut v39 = field_list();
    push_field(&mut v39, "type", json_str("integer"));
    push_field(&mut v39, "description", json_str("Optional specific window ID"));
    let v40 = json_object(v39);
    let mut v2 = field_list();
    push_field(&mut v2, "action", v6);
    push_field(&mut v2, "coordinate", v16);
    push_field(&mut v2, "coordinate_space", v20);
    push_field(&mut v2, "include_screenshot", v22);
    push_field(&mut v2, "button", v26);
    push_field(&mut v2, "click_count", v28);
    push_field(&mut v2, "scroll_delta", v36);
    push_field(&mut v2, "target_app", v38);
    push_field(&mut v2, "window_id", v40);
    let v41 = json_object(v2);
    let mut v42 = item_list();
    push_item(&mut v42, json_str("action"));
    push_item(&mut v42, json_str("coordinate"));
    let v43 = json_array(v42);
    let mut v1 = field_list();
    push_field(&mut v1, "type", json_str("object"));
    push_field(&mut v1, "properties", v41);
    push_field(&mut v1, "required", v43);
    let v44 = json_object(v1);
    v44
}

/// The input schema of `desktop_keyboard_action`.
pub open spec fn keyboard_action_schema() -> JsonView {
    JsonView::Object(seq_of3(("type"@, JsonView::Str("object"@)), ("properties"@, JsonView::Object(seq_of7(("action"@, JsonView::Object(seq_of2(("type"@, JsonView::Str("string"@)), ("enum"@, JsonView::Array(seq_of5(JsonView::Str("type"@), JsonView::Str("press_key"@), JsonView::Str("hotkey"@), JsonView::Str("key_down"@), JsonView::Str("key_up"@))))))), ("text"@, JsonView::Object(seq_of2(("type"@, JsonView::Str("string"@)), ("description"@, JsonView::Str("Text to type into the target app"@))))), ("key"@, JsonView::Object(seq_of2(("type"@, JsonView::Str("string"@)), ("description"@, JsonView::Str("Key name (e.g. 'return', 'escape', 'tab', 'a', 's')"@))))), ("modifiers"@, JsonView::Object(seq_of3(("type"@, JsonView::Str("array"@)), ("items"@, JsonView::Object(seq_of1(("type"@, JsonView::Str("string"@))))), ("description"@, JsonView::Str("Modifier keys (e.g. ['cmd'], ['shift'], ['alt'], ['ctrl'])"@))))), ("include_screenshot"@, JsonView::Object(seq_of3(("type"@, JsonView::Str("boolean"@)), ("default"@, JsonView::Bool(false)), ("description"@, JsonView::Str("If true, bundle a fresh screenshot of the target window/screen in the tool response"@))))), ("target_app"@, JsonView::Object(seq_of2(("type"@, JsonView::Str("string"@)), ("description"@, JsonView::Str("Target application name"@))))), ("window_id"@, JsonView::Object(seq_of2(("type"@, JsonView::Str("integer"@)), ("description"@, JsonView::Str("Optional specific window ID"@)))))))), ("required"@, JsonView::Array(seq_of1(JsonView::Str("action"@))))))
}

fn build_keyboard_action_schema() -> (v: JsonValue)
    ensures
        v@ == keyboard_action_schema(),
{
    let mut v4 = item_list();
    push_item(&mut v4, json_str("type"));
    push_item(&mut v4, json_str("press_key"));
    push_item(&mut v4, json_str("hotkey"));
    push_item(&mut v4, json_str("key_down"));
    push_item(&mut v4, json_str("key_up"));
    let v5 = json_array(v4);
    let mut v3 = field_list();
    push_field(&mut v3, "type", json_str("string"));
    push_field(&mut v3, "enum", v5);
    let v6 = json_object(v3);
    let mut v7 = field_list();
    push_field(&mut v7, "type", json_str("string"));
    push_field(&mut v7, "description", json_str("Text to type into the target app"));
    let v8 = json_object(v7);
    let mut v9 = field_list();
    push_field(&mut v9, "type", json_str("string"));
    push_field(&mut v9, "description", json_str("Key name (e.g. 'return', 'escape', 'tab', 'a', 's')"));
    let v10 = json_object(v9);
    let mut v12 = field_list();
    push_field(&mut v12, "type", json_str("string"));
    let v13 = json_object(v12);
    let mut v11 = field_list();
    push_field(&mut v11, "type", json_str("array"));
    push_field(&mut v11, "items", v13);
    push_field(&mut v11, "description", json_str("Modifier keys (e.g. ['cmd'], ['shift'], ['alt'], ['ctrl'])"));
    let v14 = json_object(v11);
    let mut v15 = field_list();
    push_field(&mut v15, "type", json_str("boolean"));
    push_field(&mut v15, "default", JsonValue::Bool(false));
    push_field(&mut v15, "description", json_str("If true, bundle a fresh screenshot of the target window/screen in the tool response"));
    let v16 = json_object(v15);
    let mut v17 = field_list();
    push_field(&mut v17, "type", json_str("string"));
    push_field(&mut v17, "description", json_str("Target application name"));
    let v18 = json_object(v17);
    let mut v19 = field_list();
    push_field(&mut v19, "type", json_str("integer"));
    push_field(&mut v19, "description", json_str("Optional specific window ID"));
    let v20 = json_object(v19);
    let mut v2 = field_list();
    push_field(&mut v2, "action", v6);
    push_field(&mut v2, "text", v8);
    push_field(&mut v2, "key", v10);
    push_field(&mut v2, "modifiers", v14);
    push_field(&mut v2, "include_screenshot", v16);
    push_field(&mut v2, "target_app", v18);
    push_field(&mut v2, "window_id", v20);
    let v21 = json_object(v2);
    let mut v22 = item_list();
    push_item(&mut v22, json_str("action"));
    let v23 = json_array(v22);
    let mut v1 = field_list();
    push_field(&mut v1, "type", json_str("object"));
    push_field(&mut v1, "properties", v21);
    push_field(&mut v1, "required", v23);
    let v24 = json_object(v1);
    v24
}

/// The input schema of `desktop_inspect_ui`.
pub open spec fn inspect_ui_schema() -> JsonView {
    JsonView::Object(seq_of2(("type"@, JsonView::Str("object"@)), ("properties"@, JsonView::Object(seq_of2(("app_identifier"@, JsonView::Object(seq_of1(("type"@, JsonView::Str("string"@))))), ("max_depth"@, JsonView::Object(seq_of2(("type"@, JsonView::Str("integer"@)), ("default"@, JsonView::Number(JsonNumber { kind: NumberKind::PosInt(3), f64_bits: 0x4008000000000000 }))))))))))
}

fn build_inspect_ui_schema() -> (v: JsonValue)
    ensures
        v@ == inspect_ui_schema(),
{
    let mut v3 = field_list();
    push_field(&mut v3, "type", json_str("string"));
    let v4 = json_object(v3);
    let mut v5 = field_list();
    push_field(&mut v5, "type", json_str("integer"));
    push_field(&mut v5, "default", JsonValue::Number(JsonNumber { kind: NumberKind::PosInt(3), f64_bits: 0x4008000000000000 }));
    let v6 = json_object(v5);
    let mut v2 = field_list();
    push_field(&mut v2, "app_identifier", v4);
    push_field(&mut v2, "max_depth", v6);
    let v7 = json_object(v2);
    let mut v1 = field_list();
    push_field(&mut v1, "type", json_str("object"));
    push_field(&mut v1, "properties", v7);
    let v8 = json_object(v1);
    v8
}

/// The input schema of `desktop_manage_app`.
pub open spec fn manage_app_schema() -> JsonView {
    JsonView::Object(seq_of3(("type"@, JsonView::Str("object"@)), ("properties"@, JsonView::Object(seq_of2(("action"@, JsonView::Object(seq_of2(("type"@, JsonView::Str("string"@)), ("enum"@, JsonView::Array(seq_of3(JsonView::Str("launch"@), JsonView::Str("focus"@), JsonView::Str("quit"@))))))), ("app_identifier"@, JsonView::Object(seq_of1(("type"@, JsonView::Str("string"@)))))))), ("required"@, JsonView::Array(seq_of2(JsonView::Str("action"@), JsonView::Str("app_identifier"@))))))
}

fn build_manage_app_schema() -> (v: JsonValue)
    ensures
        v@ == manage_app_schema(),
{
    let mut v4 = item_list();
    push_item(&mut v4, json_str("launch"));
    push_item(&mut v4, json_str("focus"));
    push_item(&mut v4, json_str("quit"));
    let v5 = json_array(v4);
    let mut v3 = field_list();
    push_field(&mut v3, "type", json_str("string"));
    push_field(&mut v3, "enum", v5);
    let v6 = json_object(v3);
    let mut v7 = field_list();
    push_field(&mut v7, "type", json_str("string"));
    let v8 = json_object(v7);
    let mut v2 = field_list();
    push_field(&mut v2, "action", v6);
    push_field(&mut v2, "app_identifier", v8);
    let v9 = json_object(v2);
    let mut v10 = item_list();
    push_item(&mut v10, json_str("action"));
    push_item(&mut v10, json_str("app_identifier"));
    let v11 = json_array(v10);
    let mut v1 = field_list();
    push_field(&mut v1, "type", json_str("object"));
    push_field(&mut v1, "properties", v9);
    push_field(&mut v1, "required", v11);
    let v12 = json_object(v1);
    v12
}

/// The input schema of `desktop_doctor`.
pub open spec fn doctor_schema() -> JsonView {
    JsonView::Object(seq_of1(("type"@, JsonView::Str("object"@))))
}

fn build_doctor_schema() -> (v: JsonValue)
    ensures
        v@ == doctor_schema(),
{
    let mut v1 = field_list();
    push_field(&mut v1, "type", json_str("object"));
    let v2 = json_object(v1);
    v2
}

/// The input schema of `desktop_create_virtual_display`.
pub open spec fn create_virtual_display_schema() -> JsonView {
    JsonView::Object(seq_of2(("type"@, JsonView::Str("object"@)), ("properties"@, JsonView::Object(seq_of3(("width"@, JsonView::Object(seq_of3(("type"@, JsonView::Str("integer"@)), ("default"@, JsonView::Number(JsonNumber { kind: NumberKind::PosInt(1920), f64_bits: 0x409e000000000000 })), ("description"@, JsonView::Str("Width in physical pixels"@))))), ("height"@, JsonView::Object(seq_of3(("type"@, JsonView::Str("integer"@)), ("default"@, JsonView::Number(JsonNumber { kind: NumberKind::PosInt(1080), f64_bits: 0x4090e00000000000 })), ("description"@, JsonView::Str("Height in physical pixels"@))))), ("name"@, JsonView::Object(seq_of2(("type"@, JsonView::Str("string"@)), ("description"@, JsonView::Str("Optional virtual display name"@))))))))))
}

fn build_create_virtual_display_schema() -> (v: JsonValue)
    ensures
        v@ == create_virtual_display_schema(),
{
    let mut v3 = field_list();
    push_field(&mut v3, "type", json_str("integer"));
    push_field(&mut v3, "default", JsonValue::Number(JsonNumber { kind: NumberKind::PosInt(1920), f64_bits: 0x409e000000000000 }));
    push_field(&mut v3, "description", json_str("Width in physical pixels"));
    let v4 = json_object(v3);
    let mut v5 = field_list();
    push_field(&mut v5, "type", json_str("integer"));
    push_field(&mut v5, "default", JsonValue::Number(JsonNumber { kind: NumberKind::PosInt(1080), f64_bits: 0x4090e00000000000 }));
    push_field(&mut v5, "description", json_str("Height in physical pixels"));
    let v6 = json_object(v5);
    let mut v7 = field_list();
    push_field(&mut v7, "type", json_str("string"));
    push_field(&mut v7, "description", json_str("Optional virtual display name"));
    let v8 = json_object(v7);
    let mut v2 = field_list();
    push_field(&mut v2, "width", v4);
    push_field(&mut v2, "height", v6);
    push_field(&mut v2, "name", v8);
    let v9 = json_object(v2);
    let mut v1 = field_list();
    push_field(&mut v1, "type", json_str("object"));
    push_field(&mut v1, "properties", v9);
    let v10 = json_object(v1);
    v10
}

/// The input schema of `desktop_destroy_virtual_display`.
pub open spec fn destroy_virtual_display_schema() -> JsonView {
    JsonView::Object(seq_of3(("type"@, JsonView::Str("object"@)), ("properties"@, JsonView::Object(seq_of1(("display_id"@, JsonView::Object(seq_of2(("type"@, JsonView::Str("integer"@)), ("description"@, JsonView::Str("Virtual display ID to tear down"@)))))))), ("required"@, JsonView::Array(seq_of1(JsonView::Str("display_id"@))))))
}

fn build_destroy_virtual_display_schema() -> (v: JsonValue)
    ensures
        v@ == destroy_virtual_display_schema(),
{
    let mut v3 = field_list();
    push_field(&mut v3, "type", json_str("integer"));
    push_field(&mut v3, "description", json_str("Virtual display ID to tear down"));
    let v4 = json_object(v3);
    let mut v2 = field_list();
    push_field(&mut v2, "display_id", v4);
    let v5 = json_object(v2);
    let mut v6 = item_list();
    push_item(&mut v6, json_str("display_id"));
    let v7 = json_array(v6);
    let mut v1 = field_list();
    push_field(&mut v1, "type", json_str("object"));
    push_field(&mut v1, "properties", v5);
    push_field(&mut v1, "required", v7);
    let v8 = json_object(v1);
    v8
}

/// The input schema of `desktop_list_displays`.
pub open spec fn list_displays_schema() -> JsonView {
    JsonView::Object(seq_of1(("type"@, JsonView::Str("object"@))))
}

fn build_list_displays_schema() -> (v: JsonValue)
    ensures
        v@ == list_displays_schema(),
{
    let mut v1 = field_list();
    push_field(&mut v1, "type", json_str("object"));
    let v2 = json_object(v1);
    v2
}

/// The tools the daemon advertises, in order.
pub open spec fn tool_catalog() -> Seq<ToolView> {
    seq_of9(
        ToolView { name: "desktop_capture_screen"@, description: "Captures a window-isolated screenshot of an approved desktop application"@, input_schema: capture_screen_schema() },
        ToolView { name: "desktop_mouse_action"@, description: "Performs mouse movements, clicks, double clicks, right clicks, drags, and scrolls with window-relative coordinates"@, input_schema: mouse_action_schema() },
        ToolView { name: "desktop_keyboard_action"@, description: "Sends keystrokes, unicode text, key down/up, or hotkey combinations to the targeted application"@, input_schema: keyboard_action_schema() },
        ToolView { name: "desktop_inspect_ui"@, description: "Inspects the accessibility tree (roles, titles, values) of the targeted application"@, input_schema: inspect_ui_schema() },
        ToolView { name: "desktop_manage_app"@, description: "Launches, focuses, or terminates an approved desktop application"@, input_schema: manage_app_schema() },
        ToolView { name: "desktop_doctor"@, description: "Performs diagnostic health check of OS permissions, active displays, and security policy"@, input_schema: doctor_schema() },
        ToolView { name: "desktop_create_virtual_display"@, description: "Creates an isolated software virtual display head (macOS CGVirtualDisplay / Linux headless) to run agent tasks without disturbing the user's desktop"@, input_schema: create_virtual_display_schema() },
        ToolView { name: "desktop_destroy_virtual_display"@, description: "Destroys an active virtual software display head given its display_id"@, input_schema: destroy_virtual_display_schema() },
        ToolView { name: "desktop_list_displays"@, description: "Lists all active physical and virtual displays with their IDs, resolutions, and properties"@, input_schema: list_displays_schema() },
    )
}

/// The MCP tools of the daemon, with their input schemas.
pub fn get_available_tools() -> (r: Vec<McpTool>)
    ensures
        tools_view(r@) == tool_catalog(),
{
    let mut tools: Vec<McpTool> = Vec::new();
    assert(tools_view(tools@) =~= Seq::<ToolView>::empty());
    push_tool(&mut tools, "desktop_capture_screen", "Captures a window-isolated screenshot of an approved desktop application", build_capture_screen_schema());
    push_tool(&mut tools, "desktop_mouse_action", "Performs mouse movements, clicks, double clicks, right clicks, drags, and scrolls with window-relative coordinates", build_mouse_action_schema());
    push_tool(&mut tools, "desktop_keyboard_action", "Sends keystrokes, unicode text, key down/up, or hotkey combinations to the targeted application", build_keyboard_action_schema());
    push_tool(&mut tools, "desktop_inspect_ui", "Inspects the accessibility tree (roles, titles, values) of the targeted application", build_inspect_ui_schema());
    push_tool(&mut tools, "desktop_manage_app", "Launches, focuses, or terminates an approved desktop application", build_manage_app_schema());
    push_tool(&mut tools, "desktop_doctor", "Performs diagnostic health check of OS permissions, active displays, and security policy", build_doctor_schema());
    push_tool(&mut tools, "desktop_create_virtual_display", "Creates an isolated software virtual display head (macOS CGVirtualDisplay / Linux headless) to run agent tasks without disturbing the user's desktop", build_create_virtual_display_schema());
    push_tool(&mut tools, "desktop_destroy_virtual_display", "Destroys an active virtual software display head given its display_id", build_destroy_virtual_display_schema());
    push_tool(&mut tools, "desktop_list_displays", "Lists all active physical and virtual displays with their IDs, resolutions, and properties", build_list_displays_schema());
    tools
}

} // verus!
