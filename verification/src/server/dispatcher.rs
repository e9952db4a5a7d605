//! The MCP request dispatcher.
//!
//! Dispatching is a step function: a request either gets its reply at once, names a
//! driver command, or first asks a question of the desktop (which application has focus,
//! whether a point lies in the target window); the caller answers it, performs the command
//! and hands the outcome back, which yields the tool result.
use vstd::prelude::*;
use vstd::string::StringExecFns;
use crate::config::SecurityConfig;
use crate::hal::driver::{DriverError, KeyAction, MouseAction, MouseButton};
use crate::security::policy::{refusal_message, PolicyEngine};
use crate::server::json::{
    as_boolean, as_float_bits, as_signed, as_text, as_unsigned, field, field_list, fields_view, get,
    get_bool, get_f64_bits, get_i64, get_str, get_strings, get_u64, item_list, items_view, json_array,
    json_object, json_str, opt_str_view, opt_string_view, opt_view, push_field, push_item, seq_of1,
    seq_of2, seq_of3, seq_of4, text_items, texts_view, JsonNumber, JsonValue, JsonView, NumberKind,
};
use crate::server::protocol::{
    get_available_tools, tool_catalog, tools_view, ErrorView, JsonRpcError, JsonRpcRequest,
    JsonRpcResponse, McpTool, RequestView, ResponseView, ToolView,
};
use crate::utils::text::str_eq;

verus! {

/// A command for the platform driver, with the arguments the dispatcher read from the request.
/// Mouse coordinates are the IEEE-754 bits of the `f64` values, in the named coordinate space.
#[derive(Debug)]
pub enum DriverCommand {
    CaptureWindow { target_app: Option<String>, window_id: Option<u64>, format: String },
    Mouse {
        action: MouseAction,
        x_bits: u64,
        y_bits: u64,
        click_count: u32,
        button: MouseButton,
        scroll_delta: Option<(i32, i32)>,
        target_app: Option<String>,
        window_id: Option<u64>,
        coordinate_space: String,
        include_screenshot: bool,
    },
    Keyboard {
        action: KeyAction,
        text: Option<String>,
        key: Option<String>,
        modifiers: Vec<String>,
        target_app: Option<String>,
        window_id: Option<u64>,
        include_screenshot: bool,
    },
    InspectUi { app_identifier: Option<String>, max_depth: u32 },
    LaunchOrFocusApp { app_identifier: String },
    TerminateApp { app_identifier: String },
    CheckPermissions,
    ListDisplays,
    CreateVirtualDisplay { width: u32, height: u32, name: Option<String> },
    DestroyVirtualDisplay { display_id: u32 },
}

/// The mathematical form of a driver command.
pub enum CommandView {
    CaptureWindow { target_app: Option<Seq<char>>, window_id: Option<u64>, format: Seq<char> },
    Mouse {
        action: MouseAction,
        x_bits: u64,
        y_bits: u64,
        click_count: u32,
        button: MouseButton,
        scroll_delta: Option<(i32, i32)>,
        target_app: Option<Seq<char>>,
        window_id: Option<u64>,
        coordinate_space: Seq<char>,
        include_screenshot: bool,
    },
    Keyboard {
        action: KeyAction,
        text: Option<Seq<char>>,
        key: Option<Seq<char>>,
        modifiers: Seq<Seq<char>>,
        target_app: Option<Seq<char>>,
        window_id: Option<u64>,
        include_screenshot: bool,
    },
    InspectUi { app_identifier: Option<Seq<char>>, max_depth: u32 },
    LaunchOrFocusApp { app_identifier: Seq<char> },
    TerminateApp { app_identifier: Seq<char> },
    CheckPermissions,
    ListDisplays,
    CreateVirtualDisplay { width: u32, height: u32, name: Option<Seq<char>> },
    DestroyVirtualDisplay { display_id: u32 },
}

impl DriverCommand {
    pub open spec fn view(self) -> CommandView {
        match self {
            DriverCommand::CaptureWindow { target_app, window_id, format } => CommandView::CaptureWindow {
                target_app: opt_string_view(target_app),
                window_id,
                format: format@,
            },
            DriverCommand::Mouse {
                action,
                x_bits,
                y_bits,
                click_count,
                button,
                scroll_delta,
                target_app,
                window_id,
                coordinate_space,
                include_screenshot,
            } => CommandView::Mouse {
                action,
                x_bits,
                y_bits,
                click_count,
                button,
                scroll_delta,
                target_app: opt_string_view(target_app),
                window_id,
                coordinate_space: coordinate_space@,
                include_screenshot,
            },
            DriverCommand::Keyboard { action, text, key, modifiers, target_app, window_id, include_screenshot } =>
                CommandView::Keyboard {
                action,
                text: opt_string_view(text),
                key: opt_string_view(key),
                modifiers: texts_view(modifiers@),
                target_app: opt_string_view(target_app),
                window_id,
                include_screenshot,
            },
            DriverCommand::InspectUi { app_identifier, max_depth } => CommandView::InspectUi {
                app_identifier: opt_string_view(app_identifier),
                max_depth,
            },
            DriverCommand::LaunchOrFocusApp { app_identifier } => CommandView::LaunchOrFocusApp {
                app_identifier: app_identifier@,
            },
            DriverCommand::TerminateApp { app_identifier } => CommandView::TerminateApp {
                app_identifier: app_identifier@,
            },
            DriverCommand::CheckPermissions => CommandView::CheckPermissions,
            DriverCommand::ListDisplays => CommandView::ListDisplays,
            DriverCommand::CreateVirtualDisplay { width, height, name } => CommandView::CreateVirtualDisplay {
                width,
                height,
                name: opt_string_view(name),
            },
            DriverCommand::DestroyVirtualDisplay { display_id } => CommandView::DestroyVirtualDisplay {
                display_id,
            },
        }
    }
}

/// A tool call waiting for its driver command: the request id, the command, and the action
/// name the request gave (echoed in the result of pointer and keyboard actions).
#[derive(Debug)]
pub struct PendingToolCall {
    pub id: Option<JsonValue>,
    pub command: DriverCommand,
    pub label: String,
}

/// A question a tool call must have answered before its command may run: which application
/// has focus (input without a target while the focus lock is on), or whether the pointer
/// lies in the target application's window.
#[derive(Debug, Clone, Copy, PartialEq, Eq, Structural)]
pub enum GateCheck {
    FocusedApp,
    TargetWindow,
}

/// What dispatching a request yields.
#[derive(Debug)]
pub enum DispatchStep {
    Reply(JsonRpcResponse),
    Invoke(PendingToolCall),
    Check(PendingToolCall, GateCheck),
}

/// The mathematical form of a dispatch step.
pub enum DispatchView {
    Reply(ResponseView),
    Invoke { id: Option<JsonView>, command: CommandView, label: Seq<char> },
    Check { id: Option<JsonView>, command: CommandView, label: Seq<char>, check: GateCheck },
}

impl DispatchStep {
    pub open spec fn view(self) -> DispatchView {
        match self {
            DispatchStep::Reply(r) => DispatchView::Reply(r.view()),
            DispatchStep::Invoke(c) => DispatchView::Invoke {
                id: opt_view(c.id),
                command: c.command.view(),
                label: c.label@,
            },
            DispatchStep::Check(c, check) => DispatchView::Check {
                id: opt_view(c.id),
                command: c.command.view(),
                label: c.label@,
                check,
            },
        }
    }
}

/// The answer to a gate question: the focused application's name, the point lies inside
/// the target window, the point lies outside it (with the violation message), or the
/// desktop could not tell (with the driver's error).
#[derive(Debug)]
pub enum GateAnswer {
    Focused(String),
    Inside,
    Outside(String),
    Unavailable(DriverError),
}

/// The mathematical form of a gate answer (an error by its message).
pub enum AnswerView {
    Focused(Seq<char>),
    Inside,
    Outside(Seq<char>),
    Unavailable(Seq<char>),
}

impl GateAnswer {
    pub open spec fn view(self) -> AnswerView {
        match self {
            GateAnswer::Focused(a) => AnswerView::Focused(a@),
            GateAnswer::Inside => AnswerView::Inside,
            GateAnswer::Outside(m) => AnswerView::Outside(m@),
            GateAnswer::Unavailable(e) => AnswerView::Unavailable(e.message_spec()),
        }
    }
}

/// How a driver command ended: without a value, without a value but with the screenshot
/// taken after it, with a value (the driver's result as JSON), or with an error.
#[derive(Debug)]
pub enum DriverOutcome {
    Completed,
    Captured(JsonValue),
    Returned(JsonValue),
    Failed(DriverError),
}

/// The request's `action` names a pointer action; other names mean a move.
pub open spec fn mouse_action_named(s: Seq<char>) -> MouseAction {
    if s == "click"@ {
        MouseAction::Click
    } else if s == "double_click"@ {
        MouseAction::DoubleClick
    } else if s == "triple_click"@ {
        MouseAction::TripleClick
    } else if s == "right_click"@ {
        MouseAction::RightClick
    } else if s == "drag"@ {
        MouseAction::Drag
    } else if s == "scroll"@ {
        MouseAction::Scroll
    } else {
        MouseAction::Move
    }
}

/// The request's `button` names a button; any other value, or none, means the left one.
pub open spec fn button_named(s: Option<Seq<char>>) -> MouseButton {
    match s {
        Some(b) => if b == "right"@ {
            MouseButton::Right
        } else if b == "middle"@ {
            MouseButton::Middle
        } else {
            MouseButton::Left
        },
        None => MouseButton::Left,
    }
}

/// The request's `action` names a keyboard action; other names mean typing text.
pub open spec fn key_action_named(s: Seq<char>) -> KeyAction {
    if s == "hotkey"@ {
        KeyAction::Hotkey
    } else if s == "press_key"@ {
        KeyAction::PressKey
    } else if s == "key_down"@ {
        KeyAction::KeyDown
    } else if s == "key_up"@ {
        KeyAction::KeyUp
    } else {
        KeyAction::Type
    }
}

/// The refusal message for an application the policy does not permit; none when no
/// application is named or the policy permits it.
pub open spec fn gate(cfg: SecurityConfig, app: Option<Seq<char>>) -> Option<Seq<char>> {
    match app {
        Some(a) => if cfg.permits(a) {
            None
        } else {
            Some(refusal_message(cfg, a))
        },
        None => None,
    }
}

/// An optional string, or a default.
pub open spec fn text_or(s: Option<Seq<char>>, d: Seq<char>) -> Seq<char> {
    match s {
        Some(x) => x,
        None => d,
    }
}

/// An optional number, or a default.
pub open spec fn number_or(n: Option<u64>, d: u64) -> u64 {
    match n {
        Some(x) => x,
        None => d,
    }
}

/// The application a tool call names, by tool: `target_app` for capture, pointer and
/// keyboard actions, `app_identifier` for inspection and application management.
pub open spec fn named_app(name: Seq<char>, args: JsonView) -> Option<Seq<char>> {
    if name == "desktop_capture_screen"@ || name == "desktop_mouse_action"@ || name
        == "desktop_keyboard_action"@ {
        as_text(field(args, "target_app"@))
    } else if name == "desktop_inspect_ui"@ || name == "desktop_manage_app"@ {
        as_text(field(args, "app_identifier"@))
    } else {
        None
    }
}
/// An optional flag, or a default.
pub open spec fn flag_or(b: Option<bool>, d: bool) -> bool {
    match b {
        Some(x) => x,
        None => d,
    }
}

/// An optional integer as a mathematical integer, zero when absent.
pub open spec fn int_or_zero(v: Option<i64>) -> int {
    match v {
        Some(i) => i as int,
        None => 0,
    }
}

/// Whether an integer fits an `i32`.
pub open spec fn fits_i32(i: int) -> bool {
    i32::MIN <= i <= i32::MAX
}

/// The scroll delta a request gives: `dx` and `dy` of the `scroll_delta` object (zero when
/// missing); none without the object, or when a component does not fit an `i32`.
pub open spec fn scroll_named(v: Option<JsonView>) -> Option<(i32, i32)> {
    match v {
        Some(d) => {
            let dx = int_or_zero(as_signed(field(d, "dx"@)));
            let dy = int_or_zero(as_signed(field(d, "dy"@)));
            if fits_i32(dx) && fits_i32(dy) {
                Some((dx as i32, dy as i32))
            } else {
                None
            }
        },
        None => None,
    }
}

/// A planned command with no echoed action name.
pub open spec fn unlabelled(c: CommandView) -> Result<(CommandView, Seq<char>), Seq<char>> {
    Ok((c, Seq::empty()))
}

/// A window capture: of the target application (if the policy permits it) or window, in
/// the requested format, PNG by default.
pub open spec fn plan_capture(cfg: SecurityConfig, args: JsonView) -> Result<(CommandView, Seq<char>), Seq<char>> {
    let target = as_text(field(args, "target_app"@));
    match gate(cfg, target) {
        Some(m) => Err(m),
        None => unlabelled(
            CommandView::CaptureWindow {
                target_app: target,
                window_id: as_unsigned(field(args, "window_id"@)),
                format: text_or(as_text(field(args, "format"@)), "png"@),
            },
        ),
    }
}

/// A pointer action: it needs both coordinates, and a target application the policy permits.
pub open spec fn plan_mouse(cfg: SecurityConfig, args: JsonView) -> Result<(CommandView, Seq<char>), Seq<char>> {
    let label = text_or(as_text(field(args, "action"@)), "move"@);
    let target = as_text(field(args, "target_app"@));
    match field(args, "coordinate"@) {
        None => Err("Missing coordinate"@),
        Some(coord) => match as_float_bits(field(coord, "x"@)) {
            None => Err("Missing x coordinate"@),
            Some(x) => match as_float_bits(field(coord, "y"@)) {
                None => Err("Missing y coordinate"@),
                Some(y) => match gate(cfg, target) {
                    Some(m) => Err(m),
                    None => Ok(
                        (
                            CommandView::Mouse {
                                action: mouse_action_named(label),
                                x_bits: x,
                                y_bits: y,
                                click_count: number_or(as_unsigned(field(args, "click_count"@)), 1) as u32,
                                button: button_named(as_text(field(args, "button"@))),
                                scroll_delta: scroll_named(field(args, "scroll_delta"@)),
                                target_app: target,
                                window_id: as_unsigned(field(args, "window_id"@)),
                                coordinate_space: text_or(
                                    as_text(field(args, "coordinate_space"@)),
                                    "window_relative"@,
                                ),
                                include_screenshot: flag_or(as_boolean(field(args, "include_screenshot"@)), false),
                            },
                            label,
                        ),
                    ),
                },
            },
        },
    }
}

/// A keyboard action, for a target application the policy permits.
pub open spec fn plan_keyboard(cfg: SecurityConfig, args: JsonView) -> Result<(CommandView, Seq<char>), Seq<char>> {
    let label = text_or(as_text(field(args, "action"@)), "type"@);
    let target = as_text(field(args, "target_app"@));
    match gate(cfg, target) {
        Some(m) => Err(m),
        None => Ok(
            (
                CommandView::Keyboard {
                    action: key_action_named(label),
                    text: as_text(field(args, "text"@)),
                    key: as_text(field(args, "key"@)),
                    modifiers: text_items(field(args, "modifiers"@)),
                    target_app: target,
                    window_id: as_unsigned(field(args, "window_id"@)),
                    include_screenshot: flag_or(as_boolean(field(args, "include_screenshot"@)), false),
                },
                label,
            ),
        ),
    }
}

/// An accessibility inspection, of an application the policy permits, three levels deep by
/// default.
pub open spec fn plan_inspect(cfg: SecurityConfig, args: JsonView) -> Result<(CommandView, Seq<char>), Seq<char>> {
    let app = as_text(field(args, "app_identifier"@));
    match gate(cfg, app) {
        Some(m) => Err(m),
        None => unlabelled(
            CommandView::InspectUi {
                app_identifier: app,
                max_depth: number_or(as_unsigned(field(args, "max_depth"@)), 3) as u32,
            },
        ),
    }
}

/// Application management: `quit` terminates the application, any other action launches or
/// focuses it; the application must be named and permitted.
pub open spec fn plan_manage(cfg: SecurityConfig, args: JsonView) -> Result<(CommandView, Seq<char>), Seq<char>> {
    match as_text(field(args, "app_identifier"@)) {
        None => Err("Missing app_identifier"@),
        Some(app) => match gate(cfg, Some(app)) {
            Some(m) => Err(m),
            None => if as_text(field(args, "action"@)) == Some("quit"@) {
                unlabelled(CommandView::TerminateApp { app_identifier: app })
            } else {
                unlabelled(CommandView::LaunchOrFocusApp { app_identifier: app })
            },
        },
    }
}

/// A virtual display of the requested size (1920 by 1080 by default) and name.
pub open spec fn plan_create_display(args: JsonView) -> Result<(CommandView, Seq<char>), Seq<char>> {
    unlabelled(
        CommandView::CreateVirtualDisplay {
            width: number_or(as_unsigned(field(args, "width"@)), 1920) as u32,
            height: number_or(as_unsigned(field(args, "height"@)), 1080) as u32,
            name: as_text(field(args, "name"@)),
        },
    )
}

/// Tearing down a display: its id must be given, and must be a display id (fit a `u32`).
pub open spec fn plan_destroy_display(args: JsonView) -> Result<(CommandView, Seq<char>), Seq<char>> {
    match as_unsigned(field(args, "display_id"@)) {
        None => Err("Missing display_id"@),
        Some(d) => if d <= u32::MAX {
            unlabelled(CommandView::DestroyVirtualDisplay { display_id: d as u32 })
        } else {
            Err("Invalid display_id"@)
        },
    }
}

/// The driver command (and echoed action name) a tool call asks for, or the error message
/// with which it is refused; every tool of the catalog has its command.
pub open spec fn plan_tool(cfg: SecurityConfig, name: Seq<char>, args: JsonView) -> Result<
    (CommandView, Seq<char>),
    Seq<char>,
> {
    if name == "desktop_capture_screen"@ {
        plan_capture(cfg, args)
    } else if name == "desktop_mouse_action"@ {
        plan_mouse(cfg, args)
    } else if name == "desktop_keyboard_action"@ {
        plan_keyboard(cfg, args)
    } else if name == "desktop_inspect_ui"@ {
        plan_inspect(cfg, args)
    } else if name == "desktop_manage_app"@ {
        plan_manage(cfg, args)
    } else if name == "desktop_doctor"@ {
        unlabelled(CommandView::CheckPermissions)
    } else if name == "desktop_list_displays"@ {
        unlabelled(CommandView::ListDisplays)
    } else if name == "desktop_create_virtual_display"@ {
        plan_create_display(args)
    } else if name == "desktop_destroy_virtual_display"@ {
        plan_destroy_display(args)
    } else {
        Err("Unknown tool: "@ + name)
    }
}

/// The question a planned command must have answered first: a pointer action on a target
/// application asks whether the point lies in its window; pointer and keyboard input without
/// a target asks which application has focus, when the focus lock is on.
pub open spec fn gate_for(cfg: SecurityConfig, command: CommandView) -> Option<GateCheck> {
    match command {
        CommandView::Mouse { target_app, .. } => match target_app {
            Some(_) => Some(GateCheck::TargetWindow),
            None => if cfg.enforce_focus_lock {
                Some(GateCheck::FocusedApp)
            } else {
                None
            },
        },
        CommandView::Keyboard { target_app, .. } => match target_app {
            Some(_) => None,
            None => if cfg.enforce_focus_lock {
                Some(GateCheck::FocusedApp)
            } else {
                None
            },
        },
        _ => None,
    }
}

/// A successful response.
pub open spec fn success_view(id: Option<JsonView>, result: JsonView) -> ResponseView {
    ResponseView { jsonrpc: "2.0"@, id, result: Some(result), error: None }
}

/// An error response.
pub open spec fn failure_view(id: Option<JsonView>, code: i64, message: Seq<char>) -> ResponseView {
    ResponseView {
        jsonrpc: "2.0"@,
        id,
        result: None,
        error: Some(ErrorView { code, message, data: None }),
    }
}

/// The result of `initialize`.
pub open spec fn initialize_result() -> JsonView {
    JsonView::Object(
        seq_of3(
            ("protocolVersion"@, JsonView::Str("2024-11-05"@)),
            (
                "serverInfo"@,
                JsonView::Object(
                    seq_of2(
                        ("name"@, JsonView::Str("desktop-mcp-daemon"@)),
                        ("version"@, JsonView::Str("0.1.0"@)),
                    ),
                ),
            ),
            ("capabilities"@, JsonView::Object(seq_of1(("tools"@, JsonView::Object(Seq::empty()))))),
        ),
    )
}

/// A tool as a JSON object.
pub open spec fn tool_json(t: ToolView) -> JsonView {
    JsonView::Object(
        seq_of3(
            ("name"@, JsonView::Str(t.name)),
            ("description"@, JsonView::Str(t.description)),
            ("input_schema"@, t.input_schema),
        ),
    )
}

/// The result of `tools/list`: the tool catalog.
pub open spec fn tools_list_result() -> JsonView {
    JsonView::Object(
        seq_of1(
            (
                "tools"@,
                JsonView::Array(Seq::new(tool_catalog().len(), |i: int| tool_json(tool_catalog()[i]))),
            ),
        ),
    )
}

/// The result of a successful tool call: its text, as one text content item.
pub open spec fn text_content(text: Seq<char>) -> JsonView {
    JsonView::Object(
        seq_of1(
            (
                "content"@,
                JsonView::Array(
                    seq_of1(
                        JsonView::Object(
                            seq_of2(("type"@, JsonView::Str("text"@)), ("text"@, JsonView::Str(text))),
                        ),
                    ),
                ),
            ),
        ),
    )
}

/// The response to a tool call, from its text or its error message.
pub open spec fn tool_response(id: Option<JsonView>, result: Result<Seq<char>, Seq<char>>) -> ResponseView {
    match result {
        Ok(text) => success_view(id, text_content(text)),
        Err(message) => failure_view(id, -32603i64, message),
    }
}

/// The parameters of a request, `null` when it has none.
pub open spec fn call_params(req: RequestView) -> JsonView {
    match req.params {
        Some(p) => p,
        None => JsonView::Null,
    }
}

/// The tool a `tools/call` request names: its `name` parameter, or the empty string.
pub open spec fn call_name(req: RequestView) -> Seq<char> {
    text_or(as_text(field(call_params(req), "name"@)), Seq::empty())
}

/// The arguments of a `tools/call` request: its `arguments` parameter, or an empty object.
pub open spec fn call_arguments(req: RequestView) -> JsonView {
    match field(call_params(req), "arguments"@) {
        Some(a) => a,
        None => JsonView::Object(Seq::empty()),
    }
}


/// What a request yields: `initialize` and `tools/list` are answered at once; `tools/call`
/// names a driver command (first asking the question its gate needs, if any) or is refused
/// with code -32603; any other method gets -32601.
pub open spec fn dispatch_spec(cfg: SecurityConfig, req: RequestView) -> DispatchView {
    if req.method == "initialize"@ {
        DispatchView::Reply(success_view(req.id, initialize_result()))
    } else if req.method == "tools/list"@ {
        DispatchView::Reply(success_view(req.id, tools_list_result()))
    } else if req.method == "tools/call"@ {
        let name = call_name(req);
        let args = call_arguments(req);
        match plan_tool(cfg, name, args) {
            Ok((command, label)) => match gate_for(cfg, command) {
                Some(check) => DispatchView::Check { id: req.id, command, label, check },
                None => DispatchView::Invoke { id: req.id, command, label },
            },
            Err(message) => DispatchView::Reply(tool_response(req.id, Err(message))),
        }
    } else {
        DispatchView::Reply(failure_view(req.id, -32601i64, "Method not found: "@ + req.method))
    }
}

/// What a gated tool call yields once its question is answered: a focused application the
/// policy permits, or a point inside the target window, lets the command run; an
/// application the policy refuses, a point outside the window, or no answer at all ends the
/// call with an error (code -32603) and no command.
pub open spec fn resume_spec(cfg: SecurityConfig, id: Option<JsonView>, command: CommandView, label: Seq<char>, answer: AnswerView) -> DispatchView {
    match answer {
        AnswerView::Focused(app) => if cfg.permits(app) {
            DispatchView::Invoke { id, command, label }
        } else {
            DispatchView::Reply(tool_response(id, Err(refusal_message(cfg, app))))
        },
        AnswerView::Inside => DispatchView::Invoke { id, command, label },
        AnswerView::Outside(message) => DispatchView::Reply(tool_response(id, Err(message))),
        AnswerView::Unavailable(message) => DispatchView::Reply(tool_response(id, Err(message))),
    }
}

/// The mathematical form of a driver outcome (an error by its message).
pub enum OutcomeView {
    Completed,
    Captured(JsonView),
    Returned(JsonView),
    Failed(Seq<char>),
}

impl DriverOutcome {
    pub open spec fn view(self) -> OutcomeView {
        match self {
            DriverOutcome::Completed => OutcomeView::Completed,
            DriverOutcome::Captured(v) => OutcomeView::Captured(v@),
            DriverOutcome::Returned(v) => OutcomeView::Returned(v@),
            DriverOutcome::Failed(e) => OutcomeView::Failed(e.message_spec()),
        }
    }
}

/// A `screenshot` field holding the capture, when there is one.
pub open spec fn screenshot_field(shot: Option<JsonView>) -> Seq<(Seq<char>, JsonView)> {
    match shot {
        Some(s) => seq_of1(("screenshot"@, s)),
        None => Seq::empty(),
    }
}

/// The result a command yields when the driver completes it without a value: the pointer
/// and keyboard actions report success with the action name (and the pointer its
/// coordinates), followed by the screenshot taken after the action, if one was; the others
/// have no value.
pub open spec fn completion_value(command: CommandView, label: Seq<char>, shot: Option<JsonView>) -> JsonView {
    match command {
        CommandView::Mouse { x_bits, y_bits, .. } => JsonView::Object(
            seq_of4(
                ("status"@, JsonView::Str("success"@)),
                ("action"@, JsonView::Str(label)),
                ("x"@, JsonView::Number(JsonNumber { kind: NumberKind::Float, f64_bits: x_bits })),
                ("y"@, JsonView::Number(JsonNumber { kind: NumberKind::Float, f64_bits: y_bits })),
            ) + screenshot_field(shot),
        ),
        CommandView::Keyboard { .. } => JsonView::Object(
            seq_of2(("status"@, JsonView::Str("success"@)), ("action"@, JsonView::Str(label)))
                + screenshot_field(shot),
        ),
        _ => JsonView::Null,
    }
}

/// The tool result of a finished command: the driver's value, the completion value (with
/// the screenshot taken after the action, if one was), or the driver error's message.
pub open spec fn tool_result(command: CommandView, label: Seq<char>, outcome: OutcomeView) -> Result<
    JsonView,
    Seq<char>,
> {
    match outcome {
        OutcomeView::Completed => Ok(completion_value(command, label, None)),
        OutcomeView::Captured(s) => Ok(completion_value(command, label, Some(s))),
        OutcomeView::Returned(v) => Ok(v),
        OutcomeView::Failed(m) => Err(m),
    }
}


/// The view of a tool result.
pub open spec fn result_view(r: Result<JsonValue, String>) -> Result<JsonView, Seq<char>> {
    match r {
        Ok(v) => Ok(v@),
        Err(m) => Err(m@),
    }
}

/// The view of a rendered tool result.
pub open spec fn text_result_view(r: Result<String, String>) -> Result<Seq<char>, Seq<char>> {
    match r {
        Ok(v) => Ok(v@),
        Err(m) => Err(m@),
    }
}

/// The view of a planned command.
pub open spec fn plan_view(r: Result<(DriverCommand, String), String>) -> Result<(CommandView, Seq<char>), Seq<char>> {
    match r {
        Ok((c, l)) => Ok((c.view(), l@)),
        Err(m) => Err(m@),
    }
}

fn success(id: Option<JsonValue>, result: JsonValue) -> (r: JsonRpcResponse)
    ensures
        r.view() == success_view(opt_view(id), result@),
{
    JsonRpcResponse { jsonrpc: String::from_str("2.0"), id, result: Some(result), error: None }
}

fn failure(id: Option<JsonValue>, code: i64, message: String) -> (r: JsonRpcResponse)
    ensures
        r.view() == failure_view(opt_view(id), code, message@),
{
    JsonRpcResponse {
        jsonrpc: String::from_str("2.0"),
        id,
        result: None,
        error: Some(JsonRpcError { code, message, data: None }),
    }
}

fn build_initialize_result() -> (v: JsonValue)
    ensures
        v@ == initialize_result(),
{
    let mut info = field_list();
    push_field(&mut info, "name", json_str("desktop-mcp-daemon"));
    push_field(&mut info, "version", json_str(crate::version()));
    let mut tools = field_list();
    let no_fields = json_object(field_list());
    push_field(&mut tools, "tools", no_fields);
    let mut top = field_list();
    push_field(&mut top, "protocolVersion", json_str("2024-11-05"));
    push_field(&mut top, "serverInfo", json_object(info));
    push_field(&mut top, "capabilities", json_object(tools));
    json_object(top)
}

fn build_tools_list_result() -> (v: JsonValue)
    ensures
        v@ == tools_list_result(),
{
    let mut tools = get_available_tools();
    let ghost catalog = tool_catalog();
    let mut items = item_list();
    let n = tools.len();
    let mut k: usize = 0;
    while k < n
        invariant
            catalog == tool_catalog(),
            n == catalog.len(),
            k <= n,
            tools@.len() == n - k,
            tools_view(tools@) == catalog.subrange(k as int, n as int),
            items_view(items@) == Seq::new(k as nat, |i: int| tool_json(catalog[i])),
        decreases n - k,
    {
        let ghost before = tools@;
        assert(tools_view(before)[0] == before[0].view());
        let t = tools.remove(0);
        assert(tools_view(tools@) =~= catalog.subrange(k + 1, n as int)) by {
            assert forall|j: int| 0 <= j < tools@.len() implies tools_view(tools@)[j]
                == catalog.subrange(k + 1, n as int)[j] by {
                assert(tools@[j] == before[j + 1]);
                assert(tools_view(before)[j + 1] == before[j + 1].view());
            }
        }
        let McpTool { name, description, input_schema } = t;
        let mut fields = field_list();
        push_field(&mut fields, "name", JsonValue::Str(name));
        push_field(&mut fields, "description", JsonValue::Str(description));
        push_field(&mut fields, "input_schema", input_schema);
        let ghost prev = items@;
        push_item(&mut items, json_object(fields));
        k = k + 1;
        assert(items_view(items@) =~= Seq::new(k as nat, |i: int| tool_json(catalog[i])));
    }
    let mut top = field_list();
    push_field(&mut top, "tools", json_array(items));
    json_object(top)
}

/// Renders the response to a tool call from the rendered text of its result or its error message.
pub fn tool_call_response(id: Option<JsonValue>, result: Result<String, String>) -> (r: JsonRpcResponse)
    ensures
        r.view() == tool_response(opt_view(id), text_result_view(result)),
{
    match result {
        Ok(text) => {
            let mut item = field_list();
            push_field(&mut item, "type", json_str("text"));
            push_field(&mut item, "text", JsonValue::Str(text));
            let mut content = item_list();
            push_item(&mut content, json_object(item));
            let mut top = field_list();
            push_field(&mut top, "content", json_array(content));
            success(id, json_object(top))
        },
        Err(message) => failure(id, -32603, message),
    }
}

/// Appends the `screenshot` field, when there is a capture.
fn push_screenshot(fields: &mut Vec<(String, JsonValue)>, shot: Option<JsonValue>)
    ensures
        fields_view(final(fields)@) == fields_view(old(fields)@) + screenshot_field(opt_view(shot)),
{
    let ghost before = fields_view(fields@);
    match shot {
        Some(s) => {
            let ghost sv = s@;
            push_field(fields, "screenshot", s);
            assert(fields_view(fields@) =~= before + seq_of1(("screenshot"@, sv)));
        },
        None => {
            assert(fields_view(fields@) =~= before + Seq::<(Seq<char>, JsonView)>::empty());
        },
    }
}

fn float_json(bits: u64) -> (v: JsonValue)
    ensures
        v@ == JsonView::Number(JsonNumber { kind: NumberKind::Float, f64_bits: bits }),
{
    JsonValue::Number(JsonNumber { kind: NumberKind::Float, f64_bits: bits })
}

fn completion_json(command: DriverCommand, label: String, shot: Option<JsonValue>) -> (v: JsonValue)
    ensures
        v@ == completion_value(command.view(), label@, opt_view(shot)),
{
    match command {
        DriverCommand::Mouse { x_bits, y_bits, .. } => {
            let mut f = field_list();
            push_field(&mut f, "status", json_str("success"));
            push_field(&mut f, "action", JsonValue::Str(label));
            push_field(&mut f, "x", float_json(x_bits));
            push_field(&mut f, "y", float_json(y_bits));
            push_screenshot(&mut f, shot);
            json_object(f)
        },
        DriverCommand::Keyboard { .. } => {
            let mut f = field_list();
            push_field(&mut f, "status", json_str("success"));
            push_field(&mut f, "action", JsonValue::Str(label));
            push_screenshot(&mut f, shot);
            json_object(f)
        },
        _ => JsonValue::Null,
    }
}

/// The tool result of a pending call once its driver command has finished.
pub fn complete_tool_call(call: PendingToolCall, outcome: DriverOutcome) -> (r: Result<JsonValue, String>)
    ensures
        result_view(r) == tool_result(call.command.view(), call.label@, outcome.view()),
{
    match outcome {
        DriverOutcome::Failed(e) => Err(e.message()),
        DriverOutcome::Returned(v) => Ok(v),
        DriverOutcome::Completed => Ok(completion_json(call.command, call.label, None)),
        DriverOutcome::Captured(s) => Ok(completion_json(call.command, call.label, Some(s))),
    }
}

fn mouse_action_of(s: &str) -> (r: MouseAction)
    ensures
        r == mouse_action_named(s@),
{
    if str_eq(s, "click") {
        MouseAction::Click
    } else if str_eq(s, "double_click") {
        MouseAction::DoubleClick
    } else if str_eq(s, "triple_click") {
        MouseAction::TripleClick
    } else if str_eq(s, "right_click") {
        MouseAction::RightClick
    } else if str_eq(s, "drag") {
        MouseAction::Drag
    } else if str_eq(s, "scroll") {
        MouseAction::Scroll
    } else {
        MouseAction::Move
    }
}

fn button_of(s: Option<&str>) -> (r: MouseButton)
    ensures
        r == button_named(opt_str_view(s)),
{
    match s {
        Some(b) => if str_eq(b, "right") {
            MouseButton::Right
        } else if str_eq(b, "middle") {
            MouseButton::Middle
        } else {
            MouseButton::Left
        },
        None => MouseButton::Left,
    }
}

fn key_action_of(s: &str) -> (r: KeyAction)
    ensures
        r == key_action_named(s@),
{
    if str_eq(s, "hotkey") {
        KeyAction::Hotkey
    } else if str_eq(s, "press_key") {
        KeyAction::PressKey
    } else if str_eq(s, "key_down") {
        KeyAction::KeyDown
    } else if str_eq(s, "key_up") {
        KeyAction::KeyUp
    } else {
        KeyAction::Type
    }
}

fn owned(s: Option<&str>) -> (r: Option<String>)
    ensures
        opt_string_view(r) == opt_str_view(s),
{
    match s {
        Some(x) => Some(String::from_str(x)),
        None => None,
    }
}

/// The scroll delta an argument object gives.
fn scroll_of(args: &JsonValue) -> (r: Option<(i32, i32)>)
    ensures
        r == scroll_named(field(args@, "scroll_delta"@)),
{
    match get(args, "scroll_delta") {
        Some(d) => {
            let dx: i64 = match get_i64(d, "dx") {
                Some(v) => v,
                None => 0,
            };
            let dy: i64 = match get_i64(d, "dy") {
                Some(v) => v,
                None => 0,
            };
            if -2147483648i64 <= dx && dx <= 2147483647i64 && -2147483648i64 <= dy && dy <= 2147483647i64 {
                Some((dx as i32, dy as i32))
            } else {
                None
            }
        },
        None => None,
    }
}

fn flag_of(args: &JsonValue, key: &str) -> (r: bool)
    ensures
        r == flag_or(as_boolean(field(args@, key@)), false),
{
    match get_bool(args, key) {
        Some(b) => b,
        None => false,
    }
}

fn text_of(args: &JsonValue, key: &str, default: &str) -> (r: String)
    ensures
        r@ == text_or(as_text(field(args@, key@)), default@),
{
    match get_str(args, key) {
        Some(s) => String::from_str(s),
        None => String::from_str(default),
    }
}

fn count_of(args: &JsonValue, key: &str, default: u64) -> (r: u32)
    ensures
        r == number_or(as_unsigned(field(args@, key@)), default) as u32,
{
    let n = match get_u64(args, key) {
        Some(n) => n,
        None => default,
    };
    #[verifier::truncate]
    let r = n as u32;
    r
}

fn unlabelled_plan(c: DriverCommand) -> (r: Result<(DriverCommand, String), String>)
    ensures
        plan_view(r) == unlabelled(c.view()),
{
    proof {
        reveal_strlit("");
    }
    Ok((c, String::new()))
}

fn plan_create_display_call(args: &JsonValue) -> (r: Result<(DriverCommand, String), String>)
    ensures
        plan_view(r) == plan_create_display(args@),
{
    let width = count_of(args, "width", 1920);
    let height = count_of(args, "height", 1080);
    let name = owned(get_str(args, "name"));
    unlabelled_plan(DriverCommand::CreateVirtualDisplay { width, height, name })
}

fn plan_destroy_display_call(args: &JsonValue) -> (r: Result<(DriverCommand, String), String>)
    ensures
        plan_view(r) == plan_destroy_display(args@),
{
    match get_u64(args, "display_id") {
        None => Err(String::from_str("Missing display_id")),
        Some(d) => if d <= 4294967295u64 {
            unlabelled_plan(DriverCommand::DestroyVirtualDisplay { display_id: d as u32 })
        } else {
            Err(String::from_str("Invalid display_id"))
        },
    }
}

/// Routes MCP requests and checks tool calls against the application policy.
pub struct McpDispatcher {
    policy: PolicyEngine,
}

impl McpDispatcher {
    /// The security configuration the dispatcher enforces.
    pub closed spec fn config(&self) -> SecurityConfig {
        self.policy.current_config()
    }

    pub fn new(policy: PolicyEngine) -> (r: Self)
        ensures
            r.config() == policy.current_config(),
    {
        McpDispatcher { policy }
    }

    fn gate_app(&self, app: Option<&str>) -> (r: Option<String>)
        ensures
            opt_string_view(r) == gate(self.config(), opt_str_view(app)),
    {
        match app {
            Some(a) => match self.policy.validate_app(a) {
                Ok(()) => None,
                Err(e) => Some(e.message()),
            },
            None => None,
        }
    }

    fn plan_capture_call(&self, args: &JsonValue) -> (r: Result<(DriverCommand, String), String>)
        ensures
            plan_view(r) == plan_capture(self.config(), args@),
    {
        let target = get_str(args, "target_app");
        match self.gate_app(target) {
            Some(m) => Err(m),
            None => unlabelled_plan(
                DriverCommand::CaptureWindow {
                    target_app: owned(target),
                    window_id: get_u64(args, "window_id"),
                    format: text_of(args, "format", "png"),
                },
            ),
        }
    }

    fn plan_mouse_call(&self, args: &JsonValue) -> (r: Result<(DriverCommand, String), String>)
        ensures
            plan_view(r) == plan_mouse(self.config(), args@),
    {
        let label = match get_str(args, "action") {
            Some(a) => a,
            None => "move",
        };
        let target = get_str(args, "target_app");
        let coord = match get(args, "coordinate") {
            Some(c) => c,
            None => {
                return Err(String::from_str("Missing coordinate"));
            },
        };
        let x = match get_f64_bits(coord, "x") {
            Some(x) => x,
            None => {
                return Err(String::from_str("Missing x coordinate"));
            },
        };
        let y = match get_f64_bits(coord, "y") {
            Some(y) => y,
            None => {
                return Err(String::from_str("Missing y coordinate"));
            },
        };
        match self.gate_app(target) {
            Some(m) => {
                return Err(m);
            },
            None => {},
        }
        let command = DriverCommand::Mouse {
            action: mouse_action_of(label),
            x_bits: x,
            y_bits: y,
            click_count: count_of(args, "click_count", 1),
            button: button_of(get_str(args, "button")),
            scroll_delta: scroll_of(args),
            target_app: owned(target),
            window_id: get_u64(args, "window_id"),
            coordinate_space: text_of(args, "coordinate_space", "window_relative"),
            include_screenshot: flag_of(args, "include_screenshot"),
        };
        Ok((command, String::from_str(label)))
    }

    fn plan_keyboard_call(&self, args: &JsonValue) -> (r: Result<(DriverCommand, String), String>)
        ensures
            plan_view(r) == plan_keyboard(self.config(), args@),
    {
        let label = match get_str(args, "action") {
            Some(a) => a,
            None => "type",
        };
        let target = get_str(args, "target_app");
        match self.gate_app(target) {
            Some(m) => {
                return Err(m);
            },
            None => {},
        }
        let command = DriverCommand::Keyboard {
            action: key_action_of(label),
            text: owned(get_str(args, "text")),
            key: owned(get_str(args, "key")),
            modifiers: get_strings(args, "modifiers"),
            target_app: owned(target),
            window_id: get_u64(args, "window_id"),
            include_screenshot: flag_of(args, "include_screenshot"),
        };
        Ok((command, String::from_str(label)))
    }

    fn plan_inspect_call(&self, args: &JsonValue) -> (r: Result<(DriverCommand, String), String>)
        ensures
            plan_view(r) == plan_inspect(self.config(), args@),
    {
        let app = get_str(args, "app_identifier");
        let max_depth = count_of(args, "max_depth", 3);
        match self.gate_app(app) {
            Some(m) => Err(m),
            None => unlabelled_plan(DriverCommand::InspectUi { app_identifier: owned(app), max_depth }),
        }
    }

    fn plan_manage_call(&self, args: &JsonValue) -> (r: Result<(DriverCommand, String), String>)
        ensures
            plan_view(r) == plan_manage(self.config(), args@),
    {
        let app = match get_str(args, "app_identifier") {
            Some(a) => a,
            None => {
                return Err(String::from_str("Missing app_identifier"));
            },
        };
        match self.gate_app(Some(app)) {
            Some(m) => Err(m),
            None => {
                let quit = match get_str(args, "action") {
                    Some(a) => str_eq(a, "quit"),
                    None => false,
                };
                if quit {
                    unlabelled_plan(DriverCommand::TerminateApp { app_identifier: String::from_str(app) })
                } else {
                    unlabelled_plan(DriverCommand::LaunchOrFocusApp { app_identifier: String::from_str(app) })
                }
            },
        }
    }

    /// The driver command a tool call asks for, with the echoed action name, or its refusal.
    pub fn plan_tool_call(&self, name: &str, args: &JsonValue) -> (r: Result<(DriverCommand, String), String>)
        ensures
            plan_view(r) == plan_tool(self.config(), name@, args@),
    {
        if str_eq(name, "desktop_capture_screen") {
            self.plan_capture_call(args)
        } else if str_eq(name, "desktop_mouse_action") {
            self.plan_mouse_call(args)
        } else if str_eq(name, "desktop_keyboard_action") {
            self.plan_keyboard_call(args)
        } else if str_eq(name, "desktop_inspect_ui") {
            self.plan_inspect_call(args)
        } else if str_eq(name, "desktop_manage_app") {
            self.plan_manage_call(args)
        } else if str_eq(name, "desktop_doctor") {
            unlabelled_plan(DriverCommand::CheckPermissions)
        } else if str_eq(name, "desktop_list_displays") {
            unlabelled_plan(DriverCommand::ListDisplays)
        } else if str_eq(name, "desktop_create_virtual_display") {
            plan_create_display_call(args)
        } else if str_eq(name, "desktop_destroy_virtual_display") {
            plan_destroy_display_call(args)
        } else {
            Err(String::from_str("Unknown tool: ").concat(name))
        }
    }

    /// The question a planned command must have answered before it runs, if any.
    pub fn gate_check(&self, command: &DriverCommand) -> (r: Option<GateCheck>)
        ensures
            r == gate_for(self.config(), command.view()),
    {
        let focus_lock = self.policy.get_config().enforce_focus_lock;
        match command {
            DriverCommand::Mouse { target_app, .. } => match target_app {
                Some(_) => Some(GateCheck::TargetWindow),
                None => if focus_lock {
                    Some(GateCheck::FocusedApp)
                } else {
                    None
                },
            },
            DriverCommand::Keyboard { target_app, .. } => match target_app {
                Some(_) => None,
                None => if focus_lock {
                    Some(GateCheck::FocusedApp)
                } else {
                    None
                },
            },
            _ => None,
        }
    }

    /// Dispatches one request: answers it, names the driver command it needs, or names the
    /// question to answer before that command may run.
    pub fn dispatch(&self, request: JsonRpcRequest) -> (r: DispatchStep)
        ensures
            r.view() == dispatch_spec(self.config(), request.view()),
    {
        proof {
            reveal_strlit("");
            assert(""@ =~= Seq::<char>::empty());
        }
        let JsonRpcRequest { jsonrpc: _, id, method, params } = request;
        if str_eq(method.as_str(), "initialize") {
            DispatchStep::Reply(success(id, build_initialize_result()))
        } else if str_eq(method.as_str(), "tools/list") {
            DispatchStep::Reply(success(id, build_tools_list_result()))
        } else if str_eq(method.as_str(), "tools/call") {
            let params = match params {
                Some(p) => p,
                None => JsonValue::Null,
            };
            let name = match get_str(&params, "name") {
                Some(n) => n,
                None => "",
            };
            let no_arguments = json_object(field_list());
            let args = match get(&params, "arguments") {
                Some(a) => a,
                None => &no_arguments,
            };
            match self.plan_tool_call(name, args) {
                Ok((command, label)) => match self.gate_check(&command) {
                    Some(check) => DispatchStep::Check(PendingToolCall { id, command, label }, check),
                    None => DispatchStep::Invoke(PendingToolCall { id, command, label }),
                },
                Err(message) => DispatchStep::Reply(tool_call_response(id, Err(message))),
            }
        } else {
            let message = String::from_str("Method not found: ").concat(method.as_str());
            DispatchStep::Reply(failure(id, -32601, message))
        }
    }

    /// Continues a gated tool call with the answer to its question: the command runs, or the
    /// call ends with an error.
    pub fn resume(&self, call: PendingToolCall, answer: GateAnswer) -> (r: DispatchStep)
        ensures
            r.view() == resume_spec(self.config(), opt_view(call.id), call.command.view(), call.label@, answer.view()),
    {
        match answer {
            GateAnswer::Focused(app) => match self.gate_app(Some(app.as_str())) {
                None => DispatchStep::Invoke(call),
                Some(m) => DispatchStep::Reply(tool_call_response(call.id, Err(m))),
            },
            GateAnswer::Inside => DispatchStep::Invoke(call),
            GateAnswer::Outside(m) => DispatchStep::Reply(tool_call_response(call.id, Err(m))),
            GateAnswer::Unavailable(e) => DispatchStep::Reply(tool_call_response(call.id, Err(e.message()))),
        }
    }
}

/// The names the dispatcher distinguishes are different strings.
proof fn lemma_names_distinct()
    ensures
        "initialize"@ != "tools/list"@,
        "initialize"@ != "tools/call"@,
        "tools/list"@ != "tools/call"@,
        "desktop_capture_screen"@.len() == 22,
        "desktop_mouse_action"@.len() == 20,
        "desktop_keyboard_action"@.len() == 23,
        "desktop_inspect_ui"@.len() == 18,
        "desktop_manage_app"@.len() == 18,
        "desktop_doctor"@.len() == 14,
        "desktop_list_displays"@.len() == 21,
        "desktop_create_virtual_display"@.len() == 30,
        "desktop_destroy_virtual_display"@.len() == 31,
        "desktop_manage_app"@ != "desktop_inspect_ui"@,
{
    reveal_strlit("initialize");
    reveal_strlit("tools/list");
    reveal_strlit("tools/call");
    reveal_strlit("desktop_capture_screen");
    reveal_strlit("desktop_mouse_action");
    reveal_strlit("desktop_keyboard_action");
    reveal_strlit("desktop_inspect_ui");
    reveal_strlit("desktop_manage_app");
    reveal_strlit("desktop_doctor");
    reveal_strlit("desktop_list_displays");
    reveal_strlit("desktop_create_virtual_display");
    reveal_strlit("desktop_destroy_virtual_display");
    assert("initialize"@[0] != "tools/list"@[0]);
    assert("initialize"@[0] != "tools/call"@[0]);
    assert("tools/list"@[6] != "tools/call"@[6]);
    assert("desktop_manage_app"@[8] != "desktop_inspect_ui"@[8]);
}

/// Every reply carries protocol version "2.0" and the request's id, and holds either a
/// result or an error, never both; a driver command, or a question before one, carries the
/// request's id too.
pub proof fn law_reply_echoes_request(cfg: SecurityConfig, req: RequestView)
    ensures
        match dispatch_spec(cfg, req) {
            DispatchView::Reply(r) => r.jsonrpc == "2.0"@ && r.id == req.id && (r.result is Some
                <==> r.error is None),
            DispatchView::Invoke { id, .. } => id == req.id,
            DispatchView::Check { id, .. } => id == req.id,
        },
{
}

/// A request for a method the daemon does not serve is answered with code -32601 and the
/// message `Method not found: <method>`.
pub proof fn law_unknown_method_refused(cfg: SecurityConfig, req: RequestView)
    requires
        req.method != "initialize"@,
        req.method != "tools/list"@,
        req.method != "tools/call"@,
    ensures
        dispatch_spec(cfg, req) == DispatchView::Reply(
            failure_view(req.id, -32601i64, "Method not found: "@ + req.method),
        ),
{
}

/// A tool call that names an application the policy does not permit never reaches the
/// driver: it is answered with an error (code -32603) and no result.
pub proof fn law_refused_application_never_reaches_driver(cfg: SecurityConfig, req: RequestView, app: Seq<char>)
    requires
        req.method == "tools/call"@,
        named_app(call_name(req), call_arguments(req)) == Some(app),
        !cfg.permits(app),
    ensures
        dispatch_spec(cfg, req) is Reply,
        dispatch_spec(cfg, req)->Reply_0.result is None,
        dispatch_spec(cfg, req)->Reply_0.error is Some,
        dispatch_spec(cfg, req)->Reply_0.error->Some_0.code == -32603,
{
    lemma_names_distinct();
}

/// A refused tool call whose refusal comes from the policy reports the policy's message.
pub proof fn law_policy_refusal_message_reported(cfg: SecurityConfig, req: RequestView, app: Seq<char>)
    requires
        req.method == "tools/call"@,
        call_name(req) == "desktop_manage_app"@,
        as_text(field(call_arguments(req), "app_identifier"@)) == Some(app),
        !cfg.permits(app),
    ensures
        dispatch_spec(cfg, req) == DispatchView::Reply(
            failure_view(req.id, -32603i64, refusal_message(cfg, app)),
        ),
{
    lemma_names_distinct();
}

/// Only the tools of the catalog ever reach the driver; any other tool name is refused with
/// `Unknown tool: <name>`.
pub proof fn law_only_served_tools_reach_driver(cfg: SecurityConfig, name: Seq<char>, args: JsonView)
    requires
        name != "desktop_capture_screen"@,
        name != "desktop_mouse_action"@,
        name != "desktop_keyboard_action"@,
        name != "desktop_inspect_ui"@,
        name != "desktop_manage_app"@,
        name != "desktop_doctor"@,
        name != "desktop_list_displays"@,
        name != "desktop_create_virtual_display"@,
        name != "desktop_destroy_virtual_display"@,
    ensures
        plan_tool(cfg, name, args) == Err::<(CommandView, Seq<char>), Seq<char>>("Unknown tool: "@ + name),
{
}

/// Every tool the catalog advertises has its own plan: none is answered as an unknown tool.
pub proof fn law_advertised_tools_served(cfg: SecurityConfig, i: int, args: JsonView)
    requires
        0 <= i < tool_catalog().len(),
    ensures
        ({
            let name = tool_catalog()[i].name;
            ||| name == "desktop_capture_screen"@ && plan_tool(cfg, name, args) == plan_capture(cfg, args)
            ||| name == "desktop_mouse_action"@ && plan_tool(cfg, name, args) == plan_mouse(cfg, args)
            ||| name == "desktop_keyboard_action"@ && plan_tool(cfg, name, args) == plan_keyboard(cfg, args)
            ||| name == "desktop_inspect_ui"@ && plan_tool(cfg, name, args) == plan_inspect(cfg, args)
            ||| name == "desktop_manage_app"@ && plan_tool(cfg, name, args) == plan_manage(cfg, args)
            ||| name == "desktop_doctor"@ && plan_tool(cfg, name, args) == unlabelled(CommandView::CheckPermissions)
            ||| name == "desktop_list_displays"@ && plan_tool(cfg, name, args) == unlabelled(CommandView::ListDisplays)
            ||| name == "desktop_create_virtual_display"@ && plan_tool(cfg, name, args) == plan_create_display(args)
            ||| name == "desktop_destroy_virtual_display"@ && plan_tool(cfg, name, args) == plan_destroy_display(args)
        }),
{
    lemma_names_distinct();
}

/// Launching or focusing an application the policy permits, with any action but `quit`,
/// reaches the driver with that application.
pub proof fn law_permitted_launch_reaches_driver(cfg: SecurityConfig, args: JsonView, app: Seq<char>)
    requires
        as_text(field(args, "app_identifier"@)) == Some(app),
        as_text(field(args, "action"@)) != Some("quit"@),
        cfg.permits(app),
    ensures
        plan_tool(cfg, "desktop_manage_app"@, args) == Ok::<(CommandView, Seq<char>), Seq<char>>(
            (CommandView::LaunchOrFocusApp { app_identifier: app }, Seq::empty()),
        ),
{
    lemma_names_distinct();
}

/// `quit` on an application the policy permits terminates it, and launches nothing.
pub proof fn law_quit_terminates(cfg: SecurityConfig, args: JsonView, app: Seq<char>)
    requires
        as_text(field(args, "app_identifier"@)) == Some(app),
        as_text(field(args, "action"@)) == Some("quit"@),
        cfg.permits(app),
    ensures
        plan_tool(cfg, "desktop_manage_app"@, args) == Ok::<(CommandView, Seq<char>), Seq<char>>(
            (CommandView::TerminateApp { app_identifier: app }, Seq::empty()),
        ),
{
    lemma_names_distinct();
}

/// With the focus lock on, pointer and keyboard input that names no target application is
/// never sent straight to the driver: the dispatcher first asks which application has focus.
pub proof fn law_focus_lock_asks_for_focus(cfg: SecurityConfig, req: RequestView)
    requires
        req.method == "tools/call"@,
        call_name(req) == "desktop_mouse_action"@ || call_name(req) == "desktop_keyboard_action"@,
        as_text(field(call_arguments(req), "target_app"@)) is None,
        cfg.enforce_focus_lock,
    ensures
        dispatch_spec(cfg, req) !is Invoke,
        dispatch_spec(cfg, req) matches DispatchView::Check { check, .. } ==> check == GateCheck::FocusedApp,
{
    lemma_names_distinct();
}

/// Input while an application the policy refuses has focus is refused with the policy's
/// message (code -32603), and no command runs.
pub proof fn law_unpermitted_focus_refused(cfg: SecurityConfig, id: Option<JsonView>, command: CommandView, label: Seq<char>, app: Seq<char>)
    requires
        !cfg.permits(app),
    ensures
        resume_spec(cfg, id, command, label, AnswerView::Focused(app)) == DispatchView::Reply(
            failure_view(id, -32603i64, refusal_message(cfg, app)),
        ),
{
}

/// A pointer action on a target application is never sent straight to the driver: the
/// dispatcher first asks whether the point lies in that application's window.
pub proof fn law_pointer_on_target_checks_bounds(cfg: SecurityConfig, req: RequestView)
    requires
        req.method == "tools/call"@,
        call_name(req) == "desktop_mouse_action"@,
        as_text(field(call_arguments(req), "target_app"@)) is Some,
    ensures
        dispatch_spec(cfg, req) !is Invoke,
        dispatch_spec(cfg, req) matches DispatchView::Check { check, .. } ==> check == GateCheck::TargetWindow,
{
    lemma_names_distinct();
}

/// A point outside the target window ends the call with the violation message (code
/// -32603), and no command runs.
pub proof fn law_out_of_bounds_point_refused(cfg: SecurityConfig, id: Option<JsonView>, command: CommandView, label: Seq<char>, message: Seq<char>)
    ensures
        resume_spec(cfg, id, command, label, AnswerView::Outside(message)) == DispatchView::Reply(
            failure_view(id, -32603i64, message),
        ),
{
}

/// A pointer or keyboard action that asked for a screenshot reports it under `screenshot`,
/// after the action's own fields.
pub proof fn law_screenshot_bundled(command: CommandView, label: Seq<char>, shot: JsonView)
    requires
        command is Mouse || command is Keyboard,
    ensures
        tool_result(command, label, OutcomeView::Captured(shot)) matches Ok(JsonView::Object(fields))
            && fields.last() == ("screenshot"@, shot),
{
}

/// A driver failure reaches the client as an error response (code -32603) with the
/// driver's message.
pub proof fn law_driver_failure_reported(id: Option<JsonView>, command: CommandView, label: Seq<char>, message: Seq<char>)
    ensures
        tool_result(command, label, OutcomeView::Failed(message)) == Err::<JsonView, Seq<char>>(message),
        tool_response(id, Err(message)) == failure_view(id, -32603i64, message),
{
}

/// Each pointer action the tool advertises reaches the driver as that action: `click`,
/// `double_click`, `triple_click`, `right_click`, `drag` and `scroll` name their own actions,
/// and `move`, or no action, a move; the action's name is echoed as the label.
pub proof fn law_pointer_actions_named(cfg: SecurityConfig, req: RequestView, coord: JsonView, x: u64, y: u64)
    requires
        req.method == "tools/call"@,
        call_name(req) == "desktop_mouse_action"@,
        field(call_arguments(req), "coordinate"@) == Some(coord),
        as_float_bits(field(coord, "x"@)) == Some(x),
        as_float_bits(field(coord, "y"@)) == Some(y),
        match as_text(field(call_arguments(req), "target_app"@)) {
            Some(a) => cfg.permits(a),
            None => true,
        },
    ensures
        ({
            let name = as_text(field(call_arguments(req), "action"@));
            let step = dispatch_spec(cfg, req);
            let (command, label) = match step {
                DispatchView::Invoke { command, label, .. } => (command, label),
                DispatchView::Check { command, label, .. } => (command, label),
                DispatchView::Reply(_) => (CommandView::CheckPermissions, Seq::empty()),
            };
            &&& step !is Reply
            &&& command matches CommandView::Mouse { action, x_bits, y_bits, .. } && x_bits == x && y_bits == y && {
                &&& name == Some("click"@) ==> action == MouseAction::Click
                &&& name == Some("double_click"@) ==> action == MouseAction::DoubleClick
                &&& name == Some("triple_click"@) ==> action == MouseAction::TripleClick
                &&& name == Some("right_click"@) ==> action == MouseAction::RightClick
                &&& name == Some("drag"@) ==> action == MouseAction::Drag
                &&& name == Some("scroll"@) ==> action == MouseAction::Scroll
                &&& name == Some("move"@) ==> action == MouseAction::Move
                &&& name is None ==> action == MouseAction::Move
            }
            &&& name matches Some(n) ==> label == n
        }),
{
    lemma_names_distinct();
    reveal_strlit("click");
    reveal_strlit("double_click");
    reveal_strlit("triple_click");
    reveal_strlit("right_click");
    reveal_strlit("drag");
    reveal_strlit("scroll");
    reveal_strlit("move");
    assert("double_click"@[0] != "triple_click"@[0]);
    assert("drag"@[0] != "move"@[0]);
    assert("click"@.len() == 5 && "double_click"@.len() == 12 && "triple_click"@.len() == 12);
    assert("drag"@.len() == 4 && "scroll"@.len() == 6 && "move"@.len() == 4);
    assert("move"@ != "drag"@);
    assert("move"@ != "click"@);
    assert("move"@ != "scroll"@);
    assert("move"@ != "double_click"@);
    assert("move"@ != "triple_click"@);
    assert("move"@ != "right_click"@);
    assert(mouse_action_named("move"@) == MouseAction::Move);
    assert("right_click"@.len() == 11);
    assert("right_click"@ != "click"@);
    assert("right_click"@ != "double_click"@);
    assert("right_click"@ != "triple_click"@);
    assert(mouse_action_named("right_click"@) == MouseAction::RightClick);
    assert(mouse_action_named("click"@) == MouseAction::Click);
    assert("double_click"@ != "click"@);
    assert(mouse_action_named("double_click"@) == MouseAction::DoubleClick);
    assert("triple_click"@ != "click"@ && "triple_click"@ != "double_click"@);
    assert(mouse_action_named("triple_click"@) == MouseAction::TripleClick);
    assert("drag"@ != "click"@ && "drag"@ != "double_click"@ && "drag"@ != "triple_click"@ && "drag"@ != "right_click"@);
    assert(mouse_action_named("drag"@) == MouseAction::Drag);
    assert("scroll"@ != "click"@ && "scroll"@ != "double_click"@ && "scroll"@ != "triple_click"@
        && "scroll"@ != "right_click"@ && "scroll"@ != "drag"@);
    assert(mouse_action_named("scroll"@) == MouseAction::Scroll);
}

/// Each keyboard action the tool advertises reaches the driver as that action: `type`,
/// `press_key`, `hotkey`, `key_down` and `key_up` name their own actions, and no action
/// means typing; text, key and modifiers are passed on as given.
pub proof fn law_keyboard_actions_named(cfg: SecurityConfig, args: JsonView)
    requires
        match as_text(field(args, "target_app"@)) {
            Some(a) => cfg.permits(a),
            None => true,
        },
    ensures
        ({
            let name = as_text(field(args, "action"@));
            &&& plan_tool(cfg, "desktop_keyboard_action"@, args) matches Ok((CommandView::Keyboard { action, text, key, modifiers, .. }, label)) && {
                &&& name == Some("type"@) ==> action == KeyAction::Type
                &&& name == Some("press_key"@) ==> action == KeyAction::PressKey
                &&& name == Some("hotkey"@) ==> action == KeyAction::Hotkey
                &&& name == Some("key_down"@) ==> action == KeyAction::KeyDown
                &&& name == Some("key_up"@) ==> action == KeyAction::KeyUp
                &&& name is None ==> action == KeyAction::Type
                &&& text == as_text(field(args, "text"@))
                &&& key == as_text(field(args, "key"@))
                &&& modifiers == text_items(field(args, "modifiers"@))
            }
        }),
{
    lemma_names_distinct();
    reveal_strlit("type");
    reveal_strlit("press_key");
    reveal_strlit("hotkey");
    reveal_strlit("key_down");
    reveal_strlit("key_up");
    assert("type"@.len() == 4 && "press_key"@.len() == 9 && "hotkey"@.len() == 6);
    assert("key_down"@.len() == 8 && "key_up"@.len() == 6);
    assert("key_up"@[0] != "hotkey"@[0]);
    assert("key_up"@ != "hotkey"@);
    assert("key_down"@ != "hotkey"@ && "key_down"@ != "press_key"@);
    assert("type"@ != "hotkey"@ && "type"@ != "press_key"@ && "type"@ != "key_down"@ && "type"@ != "key_up"@);
    assert(key_action_named("type"@) == KeyAction::Type);
    assert(key_action_named("press_key"@) == KeyAction::PressKey);
    assert(key_action_named("key_down"@) == KeyAction::KeyDown);
    assert(key_action_named("key_up"@) == KeyAction::KeyUp);
}

/// The `button` a pointer request names is the button pressed: `left`, `right` and `middle`
/// name their own buttons, and no button means the left one.
pub proof fn law_buttons_named(b: Option<Seq<char>>)
    ensures
        b == Some("left"@) ==> button_named(b) == MouseButton::Left,
        b == Some("right"@) ==> button_named(b) == MouseButton::Right,
        b == Some("middle"@) ==> button_named(b) == MouseButton::Middle,
        b is None ==> button_named(b) == MouseButton::Left,
{
    reveal_strlit("left");
    reveal_strlit("right");
    reveal_strlit("middle");
    assert("left"@.len() == 4 && "right"@.len() == 5 && "middle"@.len() == 6);
    assert("left"@ != "right"@ && "left"@ != "middle"@ && "middle"@ != "right"@);
}

} // verus!
