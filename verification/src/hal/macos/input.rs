//! Planning of synthesized keyboard and pointer input: which key codes, characters and
//! events an action comes down to.
use vstd::prelude::*;
use vstd::string::{StrSliceExecFns, StringExecFns};
use crate::hal::driver::{DriverError, KeyAction, MouseAction, MouseButton};
use crate::utils::text::{lowercase, signed_decimal, signed_decimal_string, str_eq, to_chars, to_lowercase};

verus! {

/// The US-layout virtual key code of a character, and whether Shift produces it.
pub open spec fn char_keycode(c: char) -> Option<(u16, bool)> {
    if c == '0' {
        Some((29u16, false))
    } else if c == '1' {
        Some((18u16, false))
    } else if c == '2' {
        Some((19u16, false))
    } else if c == '3' {
        Some((20u16, false))
    } else if c == '4' {
        Some((21u16, false))
    } else if c == '5' {
        Some((23u16, false))
    } else if c == '6' {
        Some((22u16, false))
    } else if c == '7' {
        Some((26u16, false))
    } else if c == '8' {
        Some((28u16, false))
    } else if c == '9' {
        Some((25u16, false))
    } else if c == '+' {
        Some((24u16, true))
    } else if c == '=' {
        Some((24u16, false))
    } else if c == '-' {
        Some((27u16, false))
    } else if c == '*' {
        Some((28u16, true))
    } else if c == '/' {
        Some((44u16, false))
    } else if c == '.' {
        Some((47u16, false))
    } else if c == '(' {
        Some((25u16, true))
    } else if c == ')' {
        Some((29u16, true))
    } else if c == ' ' {
        Some((49u16, false))
    } else if c == '\n' || c == '\r' {
        Some((36u16, false))
    } else {
        None
    }
}

/// The virtual key code (and Shift) that types `ch`, for the characters with a fixed key.
pub fn map_char_to_keycode(ch: char) -> (r: Option<(u16, bool)>)
    ensures
        r == char_keycode(ch),
{
    match ch {
        '0' => Some((29u16, false)),
        '1' => Some((18u16, false)),
        '2' => Some((19u16, false)),
        '3' => Some((20u16, false)),
        '4' => Some((21u16, false)),
        '5' => Some((23u16, false)),
        '6' => Some((22u16, false)),
        '7' => Some((26u16, false)),
        '8' => Some((28u16, false)),
        '9' => Some((25u16, false)),
        '+' => Some((24u16, true)),
        '=' => Some((24u16, false)),
        '-' => Some((27u16, false)),
        '*' => Some((28u16, true)),
        '/' => Some((44u16, false)),
        '.' => Some((47u16, false)),
        '(' => Some((25u16, true)),
        ')' => Some((29u16, true)),
        ' ' => Some((49u16, false)),
        '\n' | '\r' => Some((36u16, false)),
        _ => None,
    }
}

/// The virtual key code of a named key (lowercase name).
pub open spec fn named_keycode(k: Seq<char>) -> Option<u16> {
    if k == "return"@ || k == "enter"@ {
        Some(36u16)
    } else if k == "tab"@ {
        Some(48u16)
    } else if k == "space"@ {
        Some(49u16)
    } else if k == "delete"@ || k == "backspace"@ {
        Some(51u16)
    } else if k == "escape"@ || k == "esc"@ {
        Some(53u16)
    } else if k == "left"@ {
        Some(123u16)
    } else if k == "right"@ {
        Some(124u16)
    } else if k == "down"@ {
        Some(125u16)
    } else if k == "up"@ {
        Some(126u16)
    } else if k == "c"@ {
        Some(8u16)
    } else if k == "v"@ {
        Some(9u16)
    } else if k == "s"@ {
        Some(1u16)
    } else if k == "b"@ {
        Some(11u16)
    } else if k == "i"@ {
        Some(34u16)
    } else if k == "e"@ {
        Some(14u16)
    } else if k == "a"@ {
        Some(0u16)
    } else {
        None
    }
}

fn named_keycode_of(k: &str) -> (r: Option<u16>)
    ensures
        r == named_keycode(k@),
{
    if str_eq(k, "return") || str_eq(k, "enter") {
        Some(36u16)
    } else if str_eq(k, "tab") {
        Some(48u16)
    } else if str_eq(k, "space") {
        Some(49u16)
    } else if str_eq(k, "delete") || str_eq(k, "backspace") {
        Some(51u16)
    } else if str_eq(k, "escape") || str_eq(k, "esc") {
        Some(53u16)
    } else if str_eq(k, "left") {
        Some(123u16)
    } else if str_eq(k, "right") {
        Some(124u16)
    } else if str_eq(k, "down") {
        Some(125u16)
    } else if str_eq(k, "up") {
        Some(126u16)
    } else if str_eq(k, "c") {
        Some(8u16)
    } else if str_eq(k, "v") {
        Some(9u16)
    } else if str_eq(k, "s") {
        Some(1u16)
    } else if str_eq(k, "b") {
        Some(11u16)
    } else if str_eq(k, "i") {
        Some(34u16)
    } else if str_eq(k, "e") {
        Some(14u16)
    } else if str_eq(k, "a") {
        Some(0u16)
    } else {
        None
    }
}

/// The US-layout virtual key code of a lowercase letter.
pub open spec fn letter_keycode(c: char) -> Option<u16> {
    if c == 'a' {
        Some(0u16)
    } else if c == 's' {
        Some(1u16)
    } else if c == 'd' {
        Some(2u16)
    } else if c == 'f' {
        Some(3u16)
    } else if c == 'h' {
        Some(4u16)
    } else if c == 'g' {
        Some(5u16)
    } else if c == 'z' {
        Some(6u16)
    } else if c == 'x' {
        Some(7u16)
    } else if c == 'c' {
        Some(8u16)
    } else if c == 'v' {
        Some(9u16)
    } else if c == 'b' {
        Some(11u16)
    } else if c == 'q' {
        Some(12u16)
    } else if c == 'w' {
        Some(13u16)
    } else if c == 'e' {
        Some(14u16)
    } else if c == 'r' {
        Some(15u16)
    } else if c == 'y' {
        Some(16u16)
    } else if c == 't' {
        Some(17u16)
    } else if c == 'o' {
        Some(31u16)
    } else if c == 'u' {
        Some(32u16)
    } else if c == 'i' {
        Some(34u16)
    } else if c == 'p' {
        Some(35u16)
    } else if c == 'l' {
        Some(37u16)
    } else if c == 'j' {
        Some(38u16)
    } else if c == 'k' {
        Some(40u16)
    } else if c == 'n' {
        Some(45u16)
    } else if c == 'm' {
        Some(46u16)
    } else {
        None
    }
}

fn letter_keycode_of(c: char) -> (r: Option<u16>)
    ensures
        r == letter_keycode(c),
{
    if c == 'a' {
        Some(0u16)
    } else if c == 's' {
        Some(1u16)
    } else if c == 'd' {
        Some(2u16)
    } else if c == 'f' {
        Some(3u16)
    } else if c == 'h' {
        Some(4u16)
    } else if c == 'g' {
        Some(5u16)
    } else if c == 'z' {
        Some(6u16)
    } else if c == 'x' {
        Some(7u16)
    } else if c == 'c' {
        Some(8u16)
    } else if c == 'v' {
        Some(9u16)
    } else if c == 'b' {
        Some(11u16)
    } else if c == 'q' {
        Some(12u16)
    } else if c == 'w' {
        Some(13u16)
    } else if c == 'e' {
        Some(14u16)
    } else if c == 'r' {
        Some(15u16)
    } else if c == 'y' {
        Some(16u16)
    } else if c == 't' {
        Some(17u16)
    } else if c == 'o' {
        Some(31u16)
    } else if c == 'u' {
        Some(32u16)
    } else if c == 'i' {
        Some(34u16)
    } else if c == 'p' {
        Some(35u16)
    } else if c == 'l' {
        Some(37u16)
    } else if c == 'j' {
        Some(38u16)
    } else if c == 'k' {
        Some(40u16)
    } else if c == 'n' {
        Some(45u16)
    } else if c == 'm' {
        Some(46u16)
    } else {
        None
    }
}

/// How a key press is sent: as a virtual key code, or as a Unicode character.
#[derive(Debug, Clone, Copy, PartialEq, Eq, Structural)]
pub enum KeyPress {
    Keycode(u16),
    Unicode(char),
}

/// The key press a key name asks for: a named key, else the key of its first character
/// (after lowercasing; a digit, sign or letter has its key), else that character itself;
/// none for an empty name.
pub open spec fn key_press_for(key: Seq<char>) -> Option<KeyPress> {
    let k = lowercase(key);
    match named_keycode(k) {
        Some(c) => Some(KeyPress::Keycode(c)),
        None => if k.len() > 0 {
            match char_keycode(k[0]) {
                Some((c, _)) => Some(KeyPress::Keycode(c)),
                None => match letter_keycode(k[0]) {
                    Some(c) => Some(KeyPress::Keycode(c)),
                    None => Some(KeyPress::Unicode(k[0])),
                },
            }
        } else {
            None
        },
    }
}

/// The key press for `key`, or the error for a name that names no key.
pub fn plan_key_press(key: &str) -> (r: Result<KeyPress, DriverError>)
    ensures
        match r {
            Ok(p) => key_press_for(key@) == Some(p),
            Err(e) => key_press_for(key@) is None && e == DriverError::InputFailed(e->InputFailed_0)
                && e->InputFailed_0@ == "Unknown key '"@ + key@ + "'"@,
        },
{
    let lower = to_lowercase(key);
    match named_keycode_of(lower.as_str()) {
        Some(c) => Ok(KeyPress::Keycode(c)),
        None => {
            if lower.as_str().unicode_len() > 0 {
                let first = lower.as_str().get_char(0);
                match map_char_to_keycode(first) {
                    Some((c, _)) => Ok(KeyPress::Keycode(c)),
                    None => match letter_keycode_of(first) {
                        Some(c) => Ok(KeyPress::Keycode(c)),
                        None => Ok(KeyPress::Unicode(first)),
                    },
                }
            } else {
                let m = String::from_str("Unknown key '").concat(key).concat("'");
                Err(DriverError::InputFailed(m))
            }
        },
    }
}

/// The modifier keys held during a key press.
#[derive(Debug, Clone, Copy, PartialEq, Eq, Structural)]
pub struct ModifierSet {
    pub command: bool,
    pub control: bool,
    pub alternate: bool,
    pub shift: bool,
}

/// Which modifier a (lowercase) modifier name denotes: 0 command, 1 control, 2 alternate,
/// 3 shift; none for other names.
pub open spec fn modifier_kind(m: Seq<char>) -> Option<int> {
    if m == "cmd"@ || m == "command"@ || m == "super"@ {
        Some(0)
    } else if m == "ctrl"@ || m == "control"@ {
        Some(1)
    } else if m == "alt"@ || m == "option"@ {
        Some(2)
    } else if m == "shift"@ {
        Some(3)
    } else {
        None
    }
}

/// Some name in `mods`, lowercased, denotes modifier `kind`.
pub open spec fn names_modifier(mods: Seq<String>, kind: int) -> bool {
    exists|i: int| 0 <= i < mods.len() && #[trigger] modifier_kind(lowercase(mods[i]@)) == Some(kind)
}

fn modifier_kind_of(m: &str) -> (r: u8)
    ensures
        r < 4 ==> modifier_kind(m@) == Some(r as int),
        r >= 4 ==> modifier_kind(m@) is None,
{
    if str_eq(m, "cmd") || str_eq(m, "command") || str_eq(m, "super") {
        0
    } else if str_eq(m, "ctrl") || str_eq(m, "control") {
        1
    } else if str_eq(m, "alt") || str_eq(m, "option") {
        2
    } else if str_eq(m, "shift") {
        3
    } else {
        4
    }
}

/// The modifiers named by `modifiers`, case-insensitively; unknown names are ignored.
pub fn modifier_flags(modifiers: &Vec<String>) -> (r: ModifierSet)
    ensures
        r.command == names_modifier(modifiers@, 0),
        r.control == names_modifier(modifiers@, 1),
        r.alternate == names_modifier(modifiers@, 2),
        r.shift == names_modifier(modifiers@, 3),
{
    let mut set = ModifierSet { command: false, control: false, alternate: false, shift: false };
    let mut i: usize = 0;
    while i < modifiers.len()
        invariant
            i <= modifiers@.len(),
            set.command == names_modifier(modifiers@.subrange(0, i as int), 0),
            set.control == names_modifier(modifiers@.subrange(0, i as int), 1),
            set.alternate == names_modifier(modifiers@.subrange(0, i as int), 2),
            set.shift == names_modifier(modifiers@.subrange(0, i as int), 3),
        decreases modifiers@.len() - i,
    {
        let ghost prev = modifiers@.subrange(0, i as int);
        let ghost next = modifiers@.subrange(0, i + 1);
        let lower = to_lowercase(modifiers[i].as_str());
        let kind = modifier_kind_of(lower.as_str());
        if kind == 0 {
            set.command = true;
        } else if kind == 1 {
            set.control = true;
        } else if kind == 2 {
            set.alternate = true;
        } else if kind == 3 {
            set.shift = true;
        }
        proof {
            assert(next[i as int] == modifiers@[i as int]);
            assert forall|k: int| names_modifier(next, k) == (names_modifier(prev, k) || modifier_kind(
                lowercase(modifiers@[i as int]@),
            ) == Some(k)) by {
                if names_modifier(next, k) {
                    let j = choose|j: int| 0 <= j < next.len() && #[trigger] modifier_kind(lowercase(next[j]@)) == Some(k);
                    if j < i {
                        assert(prev[j] == next[j]);
                    }
                }
                if names_modifier(prev, k) {
                    let j = choose|j: int| 0 <= j < prev.len() && #[trigger] modifier_kind(lowercase(prev[j]@)) == Some(k);
                    assert(next[j] == prev[j]);
                }
            }
        }
        i = i + 1;
    }
    assert(modifiers@.subrange(0, modifiers@.len() as int) =~= modifiers@);
    set
}

/// One typed character: a key code (with Shift or not), or a Unicode character.
#[derive(Debug, Clone, Copy, PartialEq, Eq, Structural)]
pub enum KeyStroke {
    Code { keycode: u16, shift: bool },
    Unicode(char),
}

/// How a character is typed.
pub open spec fn stroke_for(c: char) -> KeyStroke {
    match char_keycode(c) {
        Some((k, s)) => KeyStroke::Code { keycode: k, shift: s },
        None => KeyStroke::Unicode(c),
    }
}

/// The keystrokes that type `text`, one per character, in order.
pub fn plan_typing(text: &str) -> (r: Vec<KeyStroke>)
    ensures
        r@ == Seq::new(text@.len(), |i: int| stroke_for(text@[i])),
{
    let chars = to_chars(text);
    let mut out: Vec<KeyStroke> = Vec::new();
    let mut i: usize = 0;
    while i < chars.len()
        invariant
            chars@ == text@,
            i <= chars@.len(),
            out@ == Seq::new(i as nat, |j: int| stroke_for(text@[j])),
        decreases chars@.len() - i,
    {
        let c = chars[i];
        let stroke = match map_char_to_keycode(c) {
            Some((k, s)) => KeyStroke::Code { keycode: k, shift: s },
            None => KeyStroke::Unicode(c),
        };
        assert(c == text@[i as int]);
        assert(stroke == stroke_for(c));
        let ghost before = out@;
        out.push(stroke);
        assert(out@ == before.push(stroke_for(text@[i as int])));
        i = i + 1;
        assert(out@ =~= Seq::new(i as nat, |j: int| stroke_for(text@[j])));
    }
    out
}

/// What a keyboard action does with its text and key.
#[derive(Debug, Clone, Copy, PartialEq, Eq, Structural)]
pub enum KeyboardPlan {
    /// Type the text, character by character.
    TypeText,
    /// Press and release the key, with the modifiers held.
    PressKey,
    /// Press the key (with the modifiers held) and leave it down.
    HoldKey,
    /// Release the key.
    ReleaseKey,
    Nothing,
}

/// Typing needs text; a key press, hotkey, key down or key up needs a key.
pub open spec fn keyboard_plan_for(action: KeyAction, has_text: bool, has_key: bool) -> KeyboardPlan {
    match action {
        KeyAction::Type => if has_text {
            KeyboardPlan::TypeText
        } else {
            KeyboardPlan::Nothing
        },
        KeyAction::Hotkey | KeyAction::PressKey => if has_key {
            KeyboardPlan::PressKey
        } else {
            KeyboardPlan::Nothing
        },
        KeyAction::KeyDown => if has_key {
            KeyboardPlan::HoldKey
        } else {
            KeyboardPlan::Nothing
        },
        KeyAction::KeyUp => if has_key {
            KeyboardPlan::ReleaseKey
        } else {
            KeyboardPlan::Nothing
        },
    }
}

pub fn plan_keyboard_action(action: KeyAction, has_text: bool, has_key: bool) -> (r: KeyboardPlan)
    ensures
        r == keyboard_plan_for(action, has_text, has_key),
{
    match action {
        KeyAction::Type => if has_text {
            KeyboardPlan::TypeText
        } else {
            KeyboardPlan::Nothing
        },
        KeyAction::Hotkey | KeyAction::PressKey => if has_key {
            KeyboardPlan::PressKey
        } else {
            KeyboardPlan::Nothing
        },
        KeyAction::KeyDown => if has_key {
            KeyboardPlan::HoldKey
        } else {
            KeyboardPlan::Nothing
        },
        KeyAction::KeyUp => if has_key {
            KeyboardPlan::ReleaseKey
        } else {
            KeyboardPlan::Nothing
        },
    }
}

/// The events a pointer action comes down to.
#[derive(Debug)]
pub enum PointerPlan {
    /// A mouse-moved event.
    Move,
    /// A press and release of the given button (left, right, or the centre button), with
    /// the given click state.
    Press { button: MouseButton, clicks: u32 },
    /// A right button press and release.
    RightPress,
    /// A left-button drag event.
    Drag,
    /// An AppleScript that scrolls the frontmost window, or nothing without a scroll delta.
    Scroll(Option<String>),
}

/// The AppleScript that scrolls the frontmost window for a vertical delta `dy`.
pub open spec fn scroll_script(dy: int) -> Seq<char> {
    "tell application \"System Events\" to tell window 1 of (first process whose frontmost is true) to scroll up by "@
        + signed_decimal(-dy)
}

/// The click state of a press: two for a double click, three for a triple click, else the
/// requested count but at least one.
pub open spec fn clicks_for(action: MouseAction, click_count: u32) -> u32 {
    match action {
        MouseAction::DoubleClick => 2,
        MouseAction::TripleClick => 3,
        _ => if click_count < 1 {
            1
        } else {
            click_count
        },
    }
}

/// The events for a pointer action.
pub fn plan_pointer(action: MouseAction, click_count: u32, button: MouseButton, scroll_dy: Option<i32>) -> (r: PointerPlan)
    requires
        action == MouseAction::Scroll ==> (scroll_dy matches Some(d) ==> d != i32::MIN),
    ensures
        match action {
            MouseAction::Move => r is Move,
            MouseAction::Click | MouseAction::DoubleClick | MouseAction::TripleClick => r
                == PointerPlan::Press {
                button,
                clicks: clicks_for(action, click_count),
            },
            MouseAction::RightClick => r is RightPress,
            MouseAction::Drag => r is Drag,
            MouseAction::Scroll => r matches PointerPlan::Scroll(s) && match scroll_dy {
                Some(d) => s matches Some(t) && t@ == scroll_script(d as int),
                None => s is None,
            },
        },
{
    match action {
        MouseAction::Move => PointerPlan::Move,
        MouseAction::Click | MouseAction::DoubleClick | MouseAction::TripleClick => {
            let clicks: u32 = match action {
                MouseAction::DoubleClick => 2,
                MouseAction::TripleClick => 3,
                _ => if click_count < 1 {
                    1
                } else {
                    click_count
                },
            };
            PointerPlan::Press { button, clicks }
        },
        MouseAction::RightClick => PointerPlan::RightPress,
        MouseAction::Drag => PointerPlan::Drag,
        MouseAction::Scroll => match scroll_dy {
            Some(dy) => {
                let up = -(dy as i64);
                let script = String::from_str(
                    "tell application \"System Events\" to tell window 1 of (first process whose frontmost is true) to scroll up by ",
                ).concat(signed_decimal_string(up).as_str());
                PointerPlan::Scroll(Some(script))
            },
            None => PointerPlan::Scroll(None),
        },
    }
}

/// The character a key of the US (ANSI) keyboard layout types, without or with Shift, by
/// its virtual key code (the `kVK_ANSI_*` constants of Carbon's `Events.h`, with Return
/// typing a carriage return); none for the other keys.
pub open spec fn us_layout_char(code: u16, shift: bool) -> Option<char> {
    if code == 0u16 {
        Some(if shift { 'A' } else { 'a' })
    } else if code == 1u16 {
        Some(if shift { 'S' } else { 's' })
    } else if code == 2u16 {
        Some(if shift { 'D' } else { 'd' })
    } else if code == 3u16 {
        Some(if shift { 'F' } else { 'f' })
    } else if code == 4u16 {
        Some(if shift { 'H' } else { 'h' })
    } else if code == 5u16 {
        Some(if shift { 'G' } else { 'g' })
    } else if code == 6u16 {
        Some(if shift { 'Z' } else { 'z' })
    } else if code == 7u16 {
        Some(if shift { 'X' } else { 'x' })
    } else if code == 8u16 {
        Some(if shift { 'C' } else { 'c' })
    } else if code == 9u16 {
        Some(if shift { 'V' } else { 'v' })
    } else if code == 11u16 {
        Some(if shift { 'B' } else { 'b' })
    } else if code == 12u16 {
        Some(if shift { 'Q' } else { 'q' })
    } else if code == 13u16 {
        Some(if shift { 'W' } else { 'w' })
    } else if code == 14u16 {
        Some(if shift { 'E' } else { 'e' })
    } else if code == 15u16 {
        Some(if shift { 'R' } else { 'r' })
    } else if code == 16u16 {
        Some(if shift { 'Y' } else { 'y' })
    } else if code == 17u16 {
        Some(if shift { 'T' } else { 't' })
    } else if code == 18u16 {
        Some(if shift { '!' } else { '1' })
    } else if code == 19u16 {
        Some(if shift { '@' } else { '2' })
    } else if code == 20u16 {
        Some(if shift { '#' } else { '3' })
    } else if code == 21u16 {
        Some(if shift { '$' } else { '4' })
    } else if code == 22u16 {
        Some(if shift { '^' } else { '6' })
    } else if code == 23u16 {
        Some(if shift { '%' } else { '5' })
    } else if code == 24u16 {
        Some(if shift { '+' } else { '=' })
    } else if code == 25u16 {
        Some(if shift { '(' } else { '9' })
    } else if code == 26u16 {
        Some(if shift { '&' } else { '7' })
    } else if code == 27u16 {
        Some(if shift { '_' } else { '-' })
    } else if code == 28u16 {
        Some(if shift { '*' } else { '8' })
    } else if code == 29u16 {
        Some(if shift { ')' } else { '0' })
    } else if code == 30u16 {
        Some(if shift { '}' } else { ']' })
    } else if code == 31u16 {
        Some(if shift { 'O' } else { 'o' })
    } else if code == 32u16 {
        Some(if shift { 'U' } else { 'u' })
    } else if code == 33u16 {
        Some(if shift { '{' } else { '[' })
    } else if code == 34u16 {
        Some(if shift { 'I' } else { 'i' })
    } else if code == 35u16 {
        Some(if shift { 'P' } else { 'p' })
    } else if code == 37u16 {
        Some(if shift { 'L' } else { 'l' })
    } else if code == 38u16 {
        Some(if shift { 'J' } else { 'j' })
    } else if code == 39u16 {
        Some(if shift { '"' } else { '\'' })
    } else if code == 40u16 {
        Some(if shift { 'K' } else { 'k' })
    } else if code == 41u16 {
        Some(if shift { ':' } else { ';' })
    } else if code == 42u16 {
        Some(if shift { '|' } else { '\\' })
    } else if code == 43u16 {
        Some(if shift { '<' } else { ',' })
    } else if code == 44u16 {
        Some(if shift { '?' } else { '/' })
    } else if code == 45u16 {
        Some(if shift { 'N' } else { 'n' })
    } else if code == 46u16 {
        Some(if shift { 'M' } else { 'm' })
    } else if code == 47u16 {
        Some(if shift { '>' } else { '.' })
    } else if code == 49u16 {
        Some(' ')
    } else if code == 50u16 {
        Some(if shift { '~' } else { '`' })
    } else if code == 36u16 && !shift {
        Some('\r')
    } else {
        None
    }
}

/// Every key code chosen for a typed character types that character on the US layout
/// (with Shift when the plan says so); a newline is typed with Return like a carriage return.
pub proof fn law_typed_keys_type_their_character(c: char)
    ensures
        char_keycode(c) matches Some((k, s)) ==> us_layout_char(k, s) == Some(c) || (c == '\n'
            && us_layout_char(k, s) == Some('\r')),
        letter_keycode(c) matches Some(k) ==> us_layout_char(k, false) == Some(c),
{
}

/// Digits, the arithmetic signs, the point, brackets, space and line ends are typed with
/// their keys, and every lowercase letter has its key.
pub proof fn law_keyed_characters(c: char)
    ensures
        ('0' <= c && c <= '9') || c == '+' || c == '-' || c == '*' || c == '/' || c == '=' || c == '.'
            || c == '(' || c == ')' || c == ' ' || c == '\n' || c == '\r' ==> char_keycode(c) is Some,
        'a' <= c && c <= 'z' ==> letter_keycode(c) is Some,
{
}

/// The click state of a press: two for any double click and three for any triple click,
/// whatever count the request gave; a single click uses the requested count, at least one.
pub proof fn law_click_counts(n: u32)
    ensures
        clicks_for(MouseAction::DoubleClick, n) == 2,
        clicks_for(MouseAction::TripleClick, n) == 3,
        n >= 1 ==> clicks_for(MouseAction::Click, n) == n,
        n == 0 ==> clicks_for(MouseAction::Click, n) == 1,
{
}

/// A one-character key name presses the key that types that character on the US layout
/// (case aside), when the layout has one; any other character is sent as itself.
pub proof fn law_single_character_keys(key: Seq<char>)
    requires
        lowercase(key).len() == 1,
    ensures
        ({
            let ch = lowercase(key)[0];
            match key_press_for(key) {
                Some(KeyPress::Keycode(code)) => us_layout_char(code, false) == Some(ch) || us_layout_char(code, true)
                    == Some(ch) || (ch == '\n' && code == 36),
                Some(KeyPress::Unicode(u)) => u == ch,
                None => false,
            }
        }),
{
    reveal_strlit("return");
    reveal_strlit("enter");
    reveal_strlit("tab");
    reveal_strlit("space");
    reveal_strlit("delete");
    reveal_strlit("backspace");
    reveal_strlit("escape");
    reveal_strlit("esc");
    reveal_strlit("left");
    reveal_strlit("right");
    reveal_strlit("down");
    reveal_strlit("up");
    reveal_strlit("c");
    reveal_strlit("v");
    reveal_strlit("s");
    reveal_strlit("b");
    reveal_strlit("i");
    reveal_strlit("e");
    reveal_strlit("a");
    assert("return"@.len() == 6 && "enter"@.len() == 5 && "tab"@.len() == 3 && "space"@.len() == 5 && "delete"@.len() == 6 && "backspace"@.len() == 9 && "escape"@.len() == 6 && "esc"@.len() == 3 && "left"@.len() == 4 && "right"@.len() == 5 && "down"@.len() == 4 && "up"@.len() == 2 && "c"@.len() == 1 && "v"@.len() == 1 && "s"@.len() == 1 && "b"@.len() == 1 && "i"@.len() == 1 && "e"@.len() == 1 && "a"@.len() == 1);
    let k = lowercase(key);
    assert(k == seq![k[0]]);
    law_typed_keys_type_their_character(k[0]);
}

/// The names of the non-character keys of the US layout, by virtual key code (`kVK_Return`,
/// `kVK_Tab`, `kVK_Space`, `kVK_Delete`, `kVK_Escape` and the arrow keys of Carbon's
/// `Events.h`).
pub open spec fn us_key_names(code: u16) -> Seq<Seq<char>> {
    if code == 36u16 {
        seq!["return"@, "enter"@]
    } else if code == 48u16 {
        seq!["tab"@]
    } else if code == 49u16 {
        seq!["space"@]
    } else if code == 51u16 {
        seq!["delete"@, "backspace"@]
    } else if code == 53u16 {
        seq!["escape"@, "esc"@]
    } else if code == 123u16 {
        seq!["left"@]
    } else if code == 124u16 {
        seq!["right"@]
    } else if code == 125u16 {
        seq!["down"@]
    } else if code == 126u16 {
        seq!["up"@]
    } else {
        Seq::empty()
    }
}

/// A key named by a word presses the key of that name, and every such name is understood:
/// a longer name is the name of its key, a one-letter name the key that types the letter.
pub proof fn law_named_keys(k: Seq<char>, code: u16)
    ensures
        named_keycode(k) == Some(code) ==> us_key_names(code).contains(k) || (k.len() == 1 && us_layout_char(
            code,
            false,
        ) == Some(k[0])),
        us_key_names(code).contains(k) ==> named_keycode(k) == Some(code),
{
    reveal_strlit("return");
    reveal_strlit("enter");
    reveal_strlit("tab");
    reveal_strlit("space");
    reveal_strlit("delete");
    reveal_strlit("backspace");
    reveal_strlit("escape");
    reveal_strlit("esc");
    reveal_strlit("left");
    reveal_strlit("right");
    reveal_strlit("down");
    reveal_strlit("up");
    reveal_strlit("c");
    reveal_strlit("v");
    reveal_strlit("s");
    reveal_strlit("b");
    reveal_strlit("i");
    reveal_strlit("e");
    reveal_strlit("a");
    assert("return"@.len() == 6 && "enter"@.len() == 5 && "tab"@.len() == 3 && "space"@.len() == 5 && "delete"@.len() == 6 && "backspace"@.len() == 9 && "escape"@.len() == 6 && "esc"@.len() == 3 && "left"@.len() == 4 && "right"@.len() == 5 && "down"@.len() == 4 && "up"@.len() == 2 && "c"@.len() == 1 && "v"@.len() == 1 && "s"@.len() == 1 && "b"@.len() == 1 && "i"@.len() == 1 && "e"@.len() == 1 && "a"@.len() == 1);
    assert("esc"@[0] != "tab"@[0] && "left"@[0] != "down"@[0]);
    assert("enter"@[0] != "space"@[0] && "enter"@[0] != "right"@[0] && "space"@[0] != "right"@[0]);
    assert("return"@[0] != "delete"@[0] && "return"@[0] != "escape"@[0] && "delete"@[0] != "escape"@[0]);
    assert("esc"@ != "tab"@ && "left"@ != "down"@);
    assert("enter"@ != "space"@ && "enter"@ != "right"@ && "space"@ != "right"@);
    assert("return"@ != "delete"@ && "return"@ != "escape"@ && "delete"@ != "escape"@);
    if us_key_names(code).contains(k) {
        let i = choose|i: int| 0 <= i < us_key_names(code).len() && us_key_names(code)[i] == k;
        if code == 36u16 {
            assert(k == "return"@ || k == "enter"@);
        } else if code == 51u16 {
            assert(k == "delete"@ || k == "backspace"@);
        } else if code == 53u16 {
            assert(k == "escape"@ || k == "esc"@);
        }
    }
    if named_keycode(k) == Some(code) {
        if k == "return"@ || k == "enter"@ {
            assert(us_key_names(code)[0] == "return"@ && us_key_names(code)[1] == "enter"@);
        } else if k == "delete"@ || k == "backspace"@ {
            assert(us_key_names(code)[0] == "delete"@ && us_key_names(code)[1] == "backspace"@);
        } else if k == "escape"@ || k == "esc"@ {
            assert(us_key_names(code)[0] == "escape"@ && us_key_names(code)[1] == "esc"@);
        } else if k.len() > 1 {
            assert(us_key_names(code)[0] == k);
        }
    }
}

/// Whether a lowercase modifier name is one of Command's names (cmd, command, super),
/// Control's (ctrl, control), Option's (alt, option) or Shift's, by modifier 0 to 3.
pub open spec fn modifier_called(kind: int, m: Seq<char>) -> bool {
    ||| kind == 0 && (m == "cmd"@ || m == "command"@ || m == "super"@)
    ||| kind == 1 && (m == "ctrl"@ || m == "control"@)
    ||| kind == 2 && (m == "alt"@ || m == "option"@)
    ||| kind == 3 && m == "shift"@
}

/// A modifier is held exactly when some name in the list, lowercased, is one of its names;
/// other names hold nothing.
pub proof fn law_modifier_names(mods: Seq<String>, kind: int)
    requires
        0 <= kind < 4,
    ensures
        names_modifier(mods, kind) <==> exists|i: int| 0 <= i < mods.len() && modifier_called(kind, #[trigger] lowercase(mods[i]@)),
{
    reveal_strlit("cmd");
    reveal_strlit("command");
    reveal_strlit("super");
    reveal_strlit("ctrl");
    reveal_strlit("control");
    reveal_strlit("alt");
    reveal_strlit("option");
    reveal_strlit("shift");
    assert("cmd"@.len() == 3 && "command"@.len() == 7 && "super"@.len() == 5 && "ctrl"@.len() == 4 && "control"@.len() == 7 && "alt"@.len() == 3 && "option"@.len() == 6 && "shift"@.len() == 5);
    assert("cmd"@[0] != "alt"@[0] && "shift"@[1] != "super"@[1]);
    assert("cmd"@ != "alt"@ && "ctrl"@ != "super"@ && "shift"@ != "super"@);
    assert("command"@[3] != "control"@[3]);
    assert("command"@ != "control"@);
    assert forall|m: Seq<char>| (#[trigger] modifier_kind(m) == Some(kind)) <==> modifier_called(kind, m) by {}
    if names_modifier(mods, kind) {
        let i = choose|i: int| 0 <= i < mods.len() && #[trigger] modifier_kind(lowercase(mods[i]@)) == Some(kind);
        assert(modifier_called(kind, lowercase(mods[i]@)));
    }
    if exists|i: int| 0 <= i < mods.len() && modifier_called(kind, #[trigger] lowercase(mods[i]@)) {
        let i = choose|i: int| 0 <= i < mods.len() && modifier_called(kind, #[trigger] lowercase(mods[i]@));
        assert(modifier_kind(lowercase(mods[i]@)) == Some(kind));
    }
}

} // verus!
