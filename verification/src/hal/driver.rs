//! The vocabulary shared by the platform drivers: input actions and driver errors.
use vstd::prelude::*;
use vstd::string::StringExecFns;

verus! {

/// A failure reported by a platform driver, with its detail text.
#[derive(Debug)]
pub enum DriverError {
    OsError(String),
    AppNotFound(String),
    NoActiveWindow(String),
    PermissionDenied(String),
    CaptureFailed(String),
    InputFailed(String),
    AccessibilityError(String),
}

impl DriverError {
    /// The text of the error, as the daemon reports it to clients.
    pub open spec fn message_spec(&self) -> Seq<char> {
        match self {
            DriverError::OsError(s) => "OS API error: "@ + s@,
            DriverError::AppNotFound(s) => "Application not found or failed to launch: "@ + s@,
            DriverError::NoActiveWindow(s) => "No active window found for application: "@ + s@,
            DriverError::PermissionDenied(s) => "Permission denied: "@ + s@,
            DriverError::CaptureFailed(s) => "Window capture failed: "@ + s@,
            DriverError::InputFailed(s) => "Input injection failed: "@ + s@,
            DriverError::AccessibilityError(s) => "Accessibility error: "@ + s@,
        }
    }

    /// The text of the error, as the daemon reports it to clients.
    pub fn message(&self) -> (r: String)
        ensures
            r@ == self.message_spec(),
    {
        match self {
            DriverError::OsError(s) => String::from_str("OS API error: ").concat(s.as_str()),
            DriverError::AppNotFound(s) => String::from_str(
                "Application not found or failed to launch: ",
            ).concat(s.as_str()),
            DriverError::NoActiveWindow(s) => String::from_str(
                "No active window found for application: ",
            ).concat(s.as_str()),
            DriverError::PermissionDenied(s) => String::from_str("Permission denied: ").concat(s.as_str()),
            DriverError::CaptureFailed(s) => String::from_str("Window capture failed: ").concat(s.as_str()),
            DriverError::InputFailed(s) => String::from_str("Input injection failed: ").concat(s.as_str()),
            DriverError::AccessibilityError(s) => String::from_str("Accessibility error: ").concat(
                s.as_str(),
            ),
        }
    }
}

/// A pointer action.
#[derive(Debug, Clone, Copy, PartialEq, Eq, Structural)]
pub enum MouseAction {
    Move,
    Click,
    DoubleClick,
    TripleClick,
    RightClick,
    Drag,
    Scroll,
}

/// A mouse button.
#[derive(Debug, Clone, Copy, PartialEq, Eq, Structural)]
pub enum MouseButton {
    Left,
    Right,
    Middle,
}

impl Default for MouseButton {
    fn default() -> (r: Self)
        ensures
            r == MouseButton::Left,
    {
        MouseButton::Left
    }
}

/// A keyboard action.
#[derive(Debug, Clone, Copy, PartialEq, Eq, Structural)]
pub enum KeyAction {
    Type,
    PressKey,
    KeyDown,
    KeyUp,
    Hotkey,
}

} // verus!
