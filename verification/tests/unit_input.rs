use desktop_mcp::hal::driver::{DriverError, KeyAction, MouseAction, MouseButton};
use desktop_mcp::hal::macos::input::{
    map_char_to_keycode, modifier_flags, plan_key_press, plan_keyboard_action, plan_pointer, plan_typing, KeyPress,
    KeyStroke, KeyboardPlan, ModifierSet, PointerPlan,
};

#[test]
fn test_char_keycodes() {
    assert_eq!(map_char_to_keycode('0'), Some((29, false)));
    assert_eq!(map_char_to_keycode('5'), Some((23, false)));
    assert_eq!(map_char_to_keycode('+'), Some((24, true)));
    assert_eq!(map_char_to_keycode('*'), Some((28, true)));
    assert_eq!(map_char_to_keycode('('), Some((25, true)));
    assert_eq!(map_char_to_keycode('\n'), Some((36, false)));
    assert_eq!(map_char_to_keycode('\r'), Some((36, false)));
    assert_eq!(map_char_to_keycode('x'), None);
}

#[test]
fn test_key_press_plans() {
    assert_eq!(plan_key_press("Return").unwrap(), KeyPress::Keycode(36));
    assert_eq!(plan_key_press("ENTER").unwrap(), KeyPress::Keycode(36));
    assert_eq!(plan_key_press("esc").unwrap(), KeyPress::Keycode(53));
    assert_eq!(plan_key_press("Up").unwrap(), KeyPress::Keycode(126));
    assert_eq!(plan_key_press("C").unwrap(), KeyPress::Keycode(8));
    assert_eq!(plan_key_press("7").unwrap(), KeyPress::Keycode(26));
    // a letter names its key, so a hotkey such as Cmd+N keeps its modifiers
    assert_eq!(plan_key_press("xyz").unwrap(), KeyPress::Keycode(7));
    assert_eq!(plan_key_press("n").unwrap(), KeyPress::Keycode(45));
    assert_eq!(plan_key_press("B").unwrap(), KeyPress::Keycode(11));
    assert_eq!(plan_key_press("m").unwrap(), KeyPress::Keycode(46));
    assert_eq!(plan_key_press("é").unwrap(), KeyPress::Unicode('é'));
    assert_eq!(plan_key_press("Ü").unwrap(), KeyPress::Unicode('ü'));
    match plan_key_press("") {
        Err(DriverError::InputFailed(m)) => assert_eq!(m, "Unknown key ''"),
        other => panic!("unexpected {:?}", other),
    }
}

#[test]
fn test_modifier_flags() {
    let m = modifier_flags(&vec!["CMD".to_string(), "option".to_string(), "hyper".to_string()]);
    assert_eq!(m, ModifierSet { command: true, control: false, alternate: true, shift: false });
    let m = modifier_flags(&vec!["Control".to_string(), "shift".to_string(), "super".to_string()]);
    assert_eq!(m, ModifierSet { command: true, control: true, alternate: false, shift: true });
    let m = modifier_flags(&vec![]);
    assert_eq!(m, ModifierSet { command: false, control: false, alternate: false, shift: false });
}

#[test]
fn test_typing_plan() {
    let strokes = plan_typing("1+é\n");
    assert_eq!(
        strokes,
        vec![
            KeyStroke::Code { keycode: 18, shift: false },
            KeyStroke::Code { keycode: 24, shift: true },
            KeyStroke::Unicode('é'),
            KeyStroke::Code { keycode: 36, shift: false },
        ]
    );
    assert!(plan_typing("").is_empty());
}

#[test]
fn test_keyboard_plans() {
    assert_eq!(plan_keyboard_action(KeyAction::Type, true, false), KeyboardPlan::TypeText);
    assert_eq!(plan_keyboard_action(KeyAction::Type, false, true), KeyboardPlan::Nothing);
    assert_eq!(plan_keyboard_action(KeyAction::Hotkey, false, true), KeyboardPlan::PressKey);
    assert_eq!(plan_keyboard_action(KeyAction::PressKey, true, false), KeyboardPlan::Nothing);
    assert_eq!(plan_keyboard_action(KeyAction::KeyDown, true, true), KeyboardPlan::HoldKey);
    assert_eq!(plan_keyboard_action(KeyAction::KeyUp, false, true), KeyboardPlan::ReleaseKey);
    assert_eq!(plan_keyboard_action(KeyAction::KeyUp, true, false), KeyboardPlan::Nothing);
}

#[test]
fn test_pointer_plans() {
    assert!(matches!(plan_pointer(MouseAction::Move, 1, MouseButton::Left, None), PointerPlan::Move));
    assert!(matches!(
        plan_pointer(MouseAction::Click, 0, MouseButton::Middle, None),
        PointerPlan::Press { button: MouseButton::Middle, clicks: 1 }
    ));
    assert!(matches!(
        plan_pointer(MouseAction::Click, 5, MouseButton::Right, None),
        PointerPlan::Press { button: MouseButton::Right, clicks: 5 }
    ));
    assert!(matches!(
        plan_pointer(MouseAction::TripleClick, 1, MouseButton::Left, None),
        PointerPlan::Press { button: MouseButton::Left, clicks: 3 }
    ));
    assert!(matches!(plan_pointer(MouseAction::RightClick, 1, MouseButton::Left, None), PointerPlan::RightPress));
    assert!(matches!(plan_pointer(MouseAction::Drag, 1, MouseButton::Left, None), PointerPlan::Drag));
    match plan_pointer(MouseAction::Scroll, 1, MouseButton::Left, Some(-3)) {
        PointerPlan::Scroll(Some(script)) => assert_eq!(
            script,
            "tell application \"System Events\" to tell window 1 of (first process whose frontmost is true) to scroll up by 3"
        ),
        other => panic!("unexpected {:?}", other),
    }
    match plan_pointer(MouseAction::Scroll, 1, MouseButton::Left, Some(120)) {
        PointerPlan::Scroll(Some(script)) => assert!(script.ends_with("scroll up by -120")),
        other => panic!("unexpected {:?}", other),
    }
    assert!(matches!(plan_pointer(MouseAction::Scroll, 1, MouseButton::Left, None), PointerPlan::Scroll(None)));
    // the smallest delta only matters to scrolling
    assert!(matches!(plan_pointer(MouseAction::Move, 1, MouseButton::Left, Some(i32::MIN)), PointerPlan::Move));
}
