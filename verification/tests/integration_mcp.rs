use desktop_mcp::config::{SecurityConfig, SecurityMode};
use desktop_mcp::hal::driver::{DriverError, KeyAction, MouseAction, MouseButton};
use desktop_mcp::security::policy::PolicyEngine;
use desktop_mcp::server::dispatcher::{
    complete_tool_call, tool_call_response, DispatchStep, DriverCommand, DriverOutcome, GateAnswer, GateCheck,
    McpDispatcher, PendingToolCall,
};
use desktop_mcp::server::json::{JsonNumber, JsonValue, NumberKind};
use desktop_mcp::server::protocol::{get_available_tools, JsonRpcRequest, JsonRpcResponse};

fn s(v: &str) -> JsonValue {
    JsonValue::Str(v.to_string())
}

fn obj(fields: Vec<(&str, JsonValue)>) -> JsonValue {
    JsonValue::Object(fields.into_iter().map(|(k, v)| (k.to_string(), v)).collect())
}

fn uint(n: u64) -> JsonValue {
    JsonValue::Number(JsonNumber { kind: NumberKind::PosInt(n), f64_bits: (n as f64).to_bits() })
}

fn float(x: f64) -> JsonValue {
    JsonValue::Number(JsonNumber { kind: NumberKind::Float, f64_bits: x.to_bits() })
}

fn field<'a>(v: &'a JsonValue, key: &str) -> &'a JsonValue {
    match v {
        JsonValue::Object(fields) => &fields.iter().find(|(k, _)| k == key).expect(key).1,
        _ => panic!("not an object"),
    }
}

fn text(v: &JsonValue) -> &str {
    match v {
        JsonValue::Str(t) => t.as_str(),
        _ => panic!("not a string"),
    }
}

fn request(id: u64, method: &str, params: Option<JsonValue>) -> JsonRpcRequest {
    JsonRpcRequest { jsonrpc: "2.0".to_string(), id: Some(uint(id)), method: method.to_string(), params }
}

fn call(id: u64, tool: &str, arguments: JsonValue) -> JsonRpcRequest {
    request(id, "tools/call", Some(obj(vec![("name", s(tool)), ("arguments", arguments)])))
}

fn reply(step: DispatchStep) -> JsonRpcResponse {
    match step {
        DispatchStep::Reply(r) => r,
        DispatchStep::Invoke(c) => panic!("expected a reply, got a driver command {:?}", c.command),
        DispatchStep::Check(c, q) => panic!("expected a reply, got a question {:?} for {:?}", q, c.command),
    }
}

fn invoked(step: DispatchStep) -> PendingToolCall {
    match step {
        DispatchStep::Invoke(p) => p,
        DispatchStep::Reply(r) => panic!("unexpected reply {:?}", r),
        DispatchStep::Check(c, q) => panic!("unexpected question {:?} for {:?}", q, c.command),
    }
}

fn checked(step: DispatchStep) -> (PendingToolCall, GateCheck) {
    match step {
        DispatchStep::Check(c, q) => (c, q),
        DispatchStep::Reply(r) => panic!("unexpected reply {:?}", r),
        DispatchStep::Invoke(c) => panic!("unexpected driver command {:?}", c.command),
    }
}

fn default_dispatcher() -> McpDispatcher {
    McpDispatcher::new(PolicyEngine::new(SecurityConfig::default()))
}

#[test]
fn test_mcp_initialize_and_tools_list() {
    let dispatcher = default_dispatcher();

    // 1. Initialize
    let init_res = reply(dispatcher.dispatch(request(1, "initialize", None)));
    assert!(init_res.error.is_none());
    let res_val = init_res.result.expect("No result");
    assert_eq!(text(field(&res_val, "protocolVersion")), "2024-11-05");
    assert_eq!(text(field(field(&res_val, "serverInfo"), "name")), "desktop-mcp-daemon");

    // 2. Tools list
    let list_res = reply(dispatcher.dispatch(request(2, "tools/list", None)));
    assert!(list_res.error.is_none());
    let result = list_res.result.unwrap();
    let tools = match field(&result, "tools") {
        JsonValue::Array(items) => items,
        _ => panic!("tools is not an array"),
    };
    assert_eq!(tools.len(), 9);

    let tool_names: Vec<&str> = tools.iter().map(|t| text(field(t, "name"))).collect();
    assert!(tool_names.contains(&"desktop_capture_screen"));
    assert!(tool_names.contains(&"desktop_mouse_action"));
    assert!(tool_names.contains(&"desktop_keyboard_action"));
    assert!(tool_names.contains(&"desktop_inspect_ui"));
    assert!(tool_names.contains(&"desktop_manage_app"));
    assert!(tool_names.contains(&"desktop_doctor"));
    assert!(tool_names.contains(&"desktop_create_virtual_display"));
    assert!(tool_names.contains(&"desktop_destroy_virtual_display"));
    assert!(tool_names.contains(&"desktop_list_displays"));
}

#[test]
fn test_mcp_policy_blocking_terminal() {
    let dispatcher = McpDispatcher::new(PolicyEngine::new(SecurityConfig {
        mode: SecurityMode::Allowlist,
        enforce_focus_lock: true,
        allowed_apps: vec!["Calculator".to_string()],
        blocked_apps: vec!["com.apple.Terminal".to_string()],
    }));

    let call_req = call(
        3,
        "desktop_manage_app",
        obj(vec![("action", s("launch")), ("app_identifier", s("com.apple.Terminal"))]),
    );

    let call_res = reply(dispatcher.dispatch(call_req));
    assert!(call_res.result.is_none());
    let err = call_res.error.expect("Expected security error");
    assert!(err.message.contains("SecurityPolicyViolation"));
    assert!(err.message.contains("explicitly blocked"));
}

#[test]
fn test_initialize_reports_version_and_id() {
    let res = reply(default_dispatcher().dispatch(request(7, "initialize", None)));
    assert_eq!(res.jsonrpc, "2.0");
    assert!(matches!(res.id, Some(JsonValue::Number(JsonNumber { kind: NumberKind::PosInt(7), .. }))));
    let result = res.result.unwrap();
    assert_eq!(text(field(field(&result, "serverInfo"), "version")), "0.1.0");
    assert!(matches!(field(field(&result, "capabilities"), "tools"), JsonValue::Object(f) if f.is_empty()));
}

#[test]
fn test_unknown_method_refused() {
    let res = reply(default_dispatcher().dispatch(request(4, "resources/list", None)));
    assert!(res.result.is_none());
    let err = res.error.unwrap();
    assert_eq!(err.code, -32601);
    assert_eq!(err.message, "Method not found: resources/list");
}

#[test]
fn test_unknown_tools_refused() {
    let d = default_dispatcher();
    let res = reply(d.dispatch(call(5, "desktop_teleport", obj(vec![]))));
    let err = res.error.unwrap();
    assert_eq!(err.code, -32603);
    assert_eq!(err.message, "Unknown tool: desktop_teleport");
    let res = reply(d.dispatch(request(6, "tools/call", None)));
    assert_eq!(res.error.unwrap().message, "Unknown tool: ");
}

#[test]
fn test_mouse_action_requires_coordinates() {
    let d = default_dispatcher();
    let res = reply(d.dispatch(call(8, "desktop_mouse_action", obj(vec![("action", s("click"))]))));
    assert_eq!(res.error.unwrap().message, "Missing coordinate");
    let res = reply(d.dispatch(call(
        9,
        "desktop_mouse_action",
        obj(vec![("coordinate", obj(vec![("y", uint(1))]))]),
    )));
    assert_eq!(res.error.unwrap().message, "Missing x coordinate");
    let res = reply(d.dispatch(call(
        10,
        "desktop_mouse_action",
        obj(vec![("coordinate", obj(vec![("x", uint(1)), ("y", s("2"))]))]),
    )));
    assert_eq!(res.error.unwrap().message, "Missing y coordinate");
}

#[test]
fn test_mouse_action_planned_and_completed() {
    let d = default_dispatcher();
    let step = d.dispatch(call(
        11,
        "desktop_mouse_action",
        obj(vec![
            ("action", s("double_click")),
            ("coordinate", obj(vec![("x", float(150.5)), ("y", uint(250))])),
            ("button", s("right")),
            ("click_count", uint(4)),
            ("target_app", s("Calculator")),
        ]),
    ));
    let (pending, question) = checked(step);
    assert_eq!(question, GateCheck::TargetWindow);
    let pending = invoked(d.resume(pending, GateAnswer::Inside));
    match &pending.command {
        DriverCommand::Mouse {
            action,
            x_bits,
            y_bits,
            click_count,
            button,
            scroll_delta,
            target_app,
            window_id,
            coordinate_space,
            include_screenshot,
        } => {
            assert_eq!(*action, MouseAction::DoubleClick);
            assert_eq!(f64::from_bits(*x_bits), 150.5);
            assert_eq!(f64::from_bits(*y_bits), 250.0);
            assert_eq!(*click_count, 4);
            assert_eq!(*button, MouseButton::Right);
            assert_eq!(*scroll_delta, None);
            assert_eq!(target_app.as_deref(), Some("Calculator"));
            assert_eq!(*window_id, None);
            assert_eq!(coordinate_space, "window_relative");
            assert!(!*include_screenshot);
        },
        other => panic!("unexpected command {:?}", other),
    }
    assert_eq!(pending.label, "double_click");
    let result = complete_tool_call(pending, DriverOutcome::Completed).unwrap();
    assert_eq!(text(field(&result, "status")), "success");
    assert_eq!(text(field(&result, "action")), "double_click");
    assert!(matches!(field(&result, "y"),
        JsonValue::Number(JsonNumber { kind: NumberKind::Float, f64_bits }) if f64::from_bits(*f64_bits) == 250.0));
}

#[test]
fn test_mouse_action_defaults() {
    let step = default_dispatcher().dispatch(call(
        12,
        "desktop_mouse_action",
        obj(vec![("coordinate", obj(vec![("x", uint(1)), ("y", uint(2))]))]),
    ));
    let (p, question) = checked(step);
    assert_eq!(question, GateCheck::FocusedApp);
    assert_eq!(p.label, "move");
    assert!(matches!(p.command,
        DriverCommand::Mouse { action: MouseAction::Move, click_count: 1, button: MouseButton::Left, .. }));
}

#[test]
fn test_refused_target_never_reaches_driver() {
    let d = default_dispatcher();
    for tool in ["desktop_capture_screen", "desktop_keyboard_action"] {
        let res = reply(d.dispatch(call(13, tool, obj(vec![("target_app", s("com.apple.Terminal"))]))));
        assert!(res.result.is_none());
        let err = res.error.unwrap();
        assert_eq!(err.code, -32603);
        assert_eq!(err.message, "SecurityPolicyViolation: Application 'com.apple.Terminal' is explicitly blocked");
    }
    let res = reply(d.dispatch(call(14, "desktop_inspect_ui", obj(vec![("app_identifier", s("Safari"))]))));
    assert_eq!(
        res.error.unwrap().message,
        "SecurityPolicyViolation: Application 'Safari' is not in the allowed applications list"
    );
    let res = reply(d.dispatch(call(15, "desktop_manage_app", obj(vec![("action", s("launch"))]))));
    assert_eq!(res.error.unwrap().message, "Missing app_identifier");
}

#[test]
fn test_keyboard_action_planned() {
    let step = default_dispatcher().dispatch(call(
        16,
        "desktop_keyboard_action",
        obj(vec![
            ("action", s("hotkey")),
            ("key", s("c")),
            ("modifiers", JsonValue::Array(vec![s("cmd"), uint(3), s("shift")])),
        ]),
    ));
    let (pending, question) = checked(step);
    assert_eq!(question, GateCheck::FocusedApp);
    let pending = invoked(default_dispatcher().resume(pending, GateAnswer::Focused("Calculator".to_string())));
    match &pending.command {
        DriverCommand::Keyboard { action, text, key, modifiers, .. } => {
            assert_eq!(*action, KeyAction::Hotkey);
            assert!(text.is_none());
            assert_eq!(key.as_deref(), Some("c"));
            assert_eq!(modifiers, &vec!["cmd".to_string(), "shift".to_string()]);
        },
        other => panic!("unexpected command {:?}", other),
    }
    let result = complete_tool_call(pending, DriverOutcome::Completed).unwrap();
    assert_eq!(text(field(&result, "action")), "hotkey");
}

#[test]
fn test_other_tools_planned() {
    let d = default_dispatcher();
    let p = invoked(d.dispatch(call(17, "desktop_inspect_ui", obj(vec![]))));
    assert!(matches!(p.command, DriverCommand::InspectUi { app_identifier: None, max_depth: 3 }));
    let p = invoked(d.dispatch(call(18, "desktop_capture_screen", obj(vec![("window_id", uint(42))]))));
    match p.command {
        DriverCommand::CaptureWindow { target_app: None, window_id: Some(42), format } => assert_eq!(format, "png"),
        other => panic!("unexpected command {:?}", other),
    }
    match invoked(d.dispatch(call(19, "desktop_manage_app", obj(vec![("app_identifier", s("kcalc"))])))).command {
        DriverCommand::LaunchOrFocusApp { app_identifier } => assert_eq!(app_identifier, "kcalc"),
        other => panic!("unexpected command {:?}", other),
    }
    let p = invoked(d.dispatch(call(20, "desktop_doctor", obj(vec![]))));
    assert!(matches!(p.command, DriverCommand::CheckPermissions));
}

#[test]
fn test_driver_outcomes() {
    let d = default_dispatcher();
    let pending = invoked(d.dispatch(call(21, "desktop_doctor", obj(vec![]))));
    let err = complete_tool_call(pending, DriverOutcome::Failed(DriverError::PermissionDenied("no AX".to_string())))
        .unwrap_err();
    assert_eq!(err, "Permission denied: no AX");
    let res = tool_call_response(Some(uint(21)), Err(err));
    assert_eq!(res.error.as_ref().unwrap().code, -32603);
    assert!(res.result.is_none());

    let pending = invoked(d.dispatch(call(22, "desktop_doctor", obj(vec![]))));
    let value = complete_tool_call(pending, DriverOutcome::Returned(obj(vec![("os", s("Linux"))]))).unwrap();
    assert_eq!(text(field(&value, "os")), "Linux");
}

#[test]
fn test_tool_call_response_wraps_text() {
    let res = tool_call_response(Some(uint(23)), Ok("{\"a\": 1}".to_string()));
    assert!(res.error.is_none());
    let result = res.result.unwrap();
    let content = match field(&result, "content") {
        JsonValue::Array(items) => items,
        _ => panic!("content is not an array"),
    };
    assert_eq!(content.len(), 1);
    assert_eq!(text(field(&content[0], "type")), "text");
    assert_eq!(text(field(&content[0], "text")), "{\"a\": 1}");
}

#[test]
fn test_driver_error_messages() {
    assert_eq!(DriverError::OsError("x".into()).message(), "OS API error: x");
    assert_eq!(DriverError::AppNotFound("x".into()).message(), "Application not found or failed to launch: x");
    assert_eq!(DriverError::NoActiveWindow("x".into()).message(), "No active window found for application: x");
    assert_eq!(DriverError::CaptureFailed("x".into()).message(), "Window capture failed: x");
    assert_eq!(DriverError::InputFailed("x".into()).message(), "Input injection failed: x");
    assert_eq!(DriverError::AccessibilityError("x".into()).message(), "Accessibility error: x");
}

#[test]
fn test_tool_catalog_schemas() {
    let tools = get_available_tools();
    assert_eq!(tools.len(), 9);
    assert_eq!(tools[0].name, "desktop_capture_screen");
    assert_eq!(tools[8].name, "desktop_list_displays");
    assert_eq!(tools[5].description, "Performs diagnostic health check of OS permissions, active displays, and security policy");
    let props = field(&tools[1].input_schema, "properties");
    assert_eq!(text(field(field(props, "coordinate_space"), "default")), "window_relative");
    assert!(matches!(field(field(props, "click_count"), "default"),
        JsonValue::Number(JsonNumber { kind: NumberKind::PosInt(1), f64_bits }) if f64::from_bits(*f64_bits) == 1.0));
    let width = field(field(field(&tools[6].input_schema, "properties"), "width"), "default");
    assert!(matches!(width,
        JsonValue::Number(JsonNumber { kind: NumberKind::PosInt(1920), f64_bits }) if f64::from_bits(*f64_bits) == 1920.0));
    let height = field(field(field(&tools[6].input_schema, "properties"), "height"), "default");
    assert!(matches!(height,
        JsonValue::Number(JsonNumber { kind: NumberKind::PosInt(1080), f64_bits }) if f64::from_bits(*f64_bits) == 1080.0));
    let depth = field(field(field(&tools[3].input_schema, "properties"), "max_depth"), "default");
    assert!(matches!(depth,
        JsonValue::Number(JsonNumber { kind: NumberKind::PosInt(3), f64_bits }) if f64::from_bits(*f64_bits) == 3.0));
}

fn signed(n: i64) -> JsonValue {
    if n >= 0 {
        uint(n as u64)
    } else {
        JsonValue::Number(JsonNumber { kind: NumberKind::NegInt(n), f64_bits: (n as f64).to_bits() })
    }
}

fn unlocked_dispatcher() -> McpDispatcher {
    let mut cfg = SecurityConfig::default();
    cfg.enforce_focus_lock = false;
    McpDispatcher::new(PolicyEngine::new(cfg))
}

#[test]
fn test_display_tools_served() {
    let d = default_dispatcher();
    assert!(matches!(invoked(d.dispatch(call(30, "desktop_list_displays", obj(vec![])))).command, DriverCommand::ListDisplays));
    let p = invoked(d.dispatch(call(
        31,
        "desktop_create_virtual_display",
        obj(vec![("width", uint(1920)), ("height", uint(1080)), ("name", s("Test-Headless-Monitor"))]),
    )));
    match p.command {
        DriverCommand::CreateVirtualDisplay { width, height, name } => {
            assert_eq!((width, height), (1920, 1080));
            assert_eq!(name.as_deref(), Some("Test-Headless-Monitor"));
        },
        other => panic!("unexpected command {:?}", other),
    }
    let p = invoked(d.dispatch(call(32, "desktop_create_virtual_display", obj(vec![("width", uint(1280))]))));
    assert!(matches!(p.command, DriverCommand::CreateVirtualDisplay { width: 1280, height: 1080, name: None }));
    let p = invoked(d.dispatch(call(33, "desktop_destroy_virtual_display", obj(vec![("display_id", uint(7))]))));
    assert!(matches!(p.command, DriverCommand::DestroyVirtualDisplay { display_id: 7 }));
    let res = reply(d.dispatch(call(34, "desktop_destroy_virtual_display", obj(vec![]))));
    assert_eq!(res.error.unwrap().message, "Missing display_id");
    let res = reply(d.dispatch(call(35, "desktop_destroy_virtual_display", obj(vec![("display_id", uint(1 << 40))]))));
    assert_eq!(res.error.unwrap().message, "Invalid display_id");
    // every advertised tool has a handler
    for tool in get_available_tools() {
        if let DispatchStep::Reply(r) = d.dispatch(call(36, &tool.name, obj(vec![]))) {
            assert!(!r.error.unwrap().message.starts_with("Unknown tool"), "{}", tool.name);
        }
    }
}

#[test]
fn test_manage_app_quit_terminates() {
    let d = default_dispatcher();
    let p = invoked(d.dispatch(call(
        40,
        "desktop_manage_app",
        obj(vec![("action", s("quit")), ("app_identifier", s("Calculator"))]),
    )));
    match p.command {
        DriverCommand::TerminateApp { app_identifier } => assert_eq!(app_identifier, "Calculator"),
        other => panic!("unexpected command {:?}", other),
    }
    let p = invoked(d.dispatch(call(
        41,
        "desktop_manage_app",
        obj(vec![("action", s("focus")), ("app_identifier", s("Calculator"))]),
    )));
    assert!(matches!(p.command, DriverCommand::LaunchOrFocusApp { .. }));
}

#[test]
fn test_key_down_and_up_planned() {
    let d = default_dispatcher();
    for (name, action) in [("key_down", KeyAction::KeyDown), ("key_up", KeyAction::KeyUp)] {
        let p = invoked(d.dispatch(call(
            42,
            "desktop_keyboard_action",
            obj(vec![("action", s(name)), ("key", s("shift")), ("target_app", s("Calculator"))]),
        )));
        match p.command {
            DriverCommand::Keyboard { action: a, key, target_app, .. } => {
                assert_eq!(a, action);
                assert_eq!(key.as_deref(), Some("shift"));
                assert_eq!(target_app.as_deref(), Some("Calculator"));
            },
            other => panic!("unexpected command {:?}", other),
        }
    }
}

#[test]
fn test_focus_lock_gates_input() {
    let d = default_dispatcher();
    let keys = obj(vec![("action", s("type")), ("text", s("rm -rf"))]);
    let (p, q) = checked(d.dispatch(call(43, "desktop_keyboard_action", keys)));
    assert_eq!(q, GateCheck::FocusedApp);
    let res = reply(d.resume(p, GateAnswer::Focused("com.apple.Terminal".to_string())));
    assert!(res.result.is_none());
    let err = res.error.unwrap();
    assert_eq!(err.code, -32603);
    assert_eq!(err.message, "SecurityPolicyViolation: Application 'com.apple.Terminal' is explicitly blocked");

    let (p, _) = checked(d.dispatch(call(44, "desktop_keyboard_action", obj(vec![("text", s("x"))]))));
    let res = reply(d.resume(p, GateAnswer::Unavailable(DriverError::NoActiveWindow("none".to_string()))));
    assert_eq!(res.error.unwrap().message, "No active window found for application: none");

    // with the lock off, input without a target goes straight to the driver
    let p = invoked(unlocked_dispatcher().dispatch(call(45, "desktop_keyboard_action", obj(vec![("text", s("x"))]))));
    assert!(matches!(p.command, DriverCommand::Keyboard { action: KeyAction::Type, .. }));
}

#[test]
fn test_pointer_bounds_checked() {
    let d = default_dispatcher();
    let args = obj(vec![
        ("action", s("click")),
        ("coordinate", obj(vec![("x", float(900.0)), ("y", float(50.0))])),
        ("coordinate_space", s("screen_absolute")),
        ("target_app", s("Calculator")),
    ]);
    let (p, q) = checked(d.dispatch(call(46, "desktop_mouse_action", args)));
    assert_eq!(q, GateCheck::TargetWindow);
    let message = "SecurityPolicyViolation: Coordinates (900, 50) fall outside target window bounds [100, 100, 500, 400]";
    let res = reply(d.resume(p, GateAnswer::Outside(message.to_string())));
    assert!(res.result.is_none());
    let err = res.error.unwrap();
    assert_eq!(err.code, -32603);
    assert_eq!(err.message, message);
}

#[test]
fn test_screenshot_bundled_and_fields_carried() {
    let d = unlocked_dispatcher();
    let args = obj(vec![
        ("action", s("move")),
        ("coordinate", obj(vec![("x", float(100.0)), ("y", float(100.0))])),
        ("coordinate_space", s("screen_absolute")),
        ("include_screenshot", JsonValue::Bool(true)),
        ("window_id", uint(9)),
        ("scroll_delta", obj(vec![("dy", signed(-3))])),
    ]);
    let p = invoked(d.dispatch(call(47, "desktop_mouse_action", args)));
    match &p.command {
        DriverCommand::Mouse { coordinate_space, include_screenshot, window_id, scroll_delta, .. } => {
            assert_eq!(coordinate_space, "screen_absolute");
            assert!(*include_screenshot);
            assert_eq!(*window_id, Some(9));
            assert_eq!(*scroll_delta, Some((0, -3)));
        },
        other => panic!("unexpected command {:?}", other),
    }
    let result = complete_tool_call(p, DriverOutcome::Captured(obj(vec![("format", s("png"))]))).unwrap();
    assert_eq!(text(field(field(&result, "screenshot"), "format")), "png");
    assert_eq!(text(field(&result, "status")), "success");

    let args = obj(vec![
        ("coordinate", obj(vec![("x", float(1.0)), ("y", float(1.0))])),
        ("scroll_delta", obj(vec![("dx", uint(1 << 40)), ("dy", signed(1))])),
    ]);
    let p = invoked(d.dispatch(call(48, "desktop_mouse_action", args)));
    assert!(matches!(p.command, DriverCommand::Mouse { scroll_delta: None, .. }));
}

#[test]
fn test_capture_format_carried() {
    let p = invoked(default_dispatcher().dispatch(call(
        49,
        "desktop_capture_screen",
        obj(vec![("target_app", s("Calculator")), ("format", s("jpeg"))]),
    )));
    match p.command {
        DriverCommand::CaptureWindow { target_app, format, .. } => {
            assert_eq!(target_app.as_deref(), Some("Calculator"));
            assert_eq!(format, "jpeg");
        },
        other => panic!("unexpected command {:?}", other),
    }
}
