//! The input domain: synthesized keyboard and mouse events.

use vstd::prelude::*;
use crate::protocol::types::JsCoord;
use crate::protocol::types::JsUInt;

verus! {

/// A mouse button on the wire.
#[derive(Clone, Copy, PartialEq, Eq, Structural, Debug)]
pub enum MouseButton {
    Left,
    Middle,
    Right,
}

/// The wire text of each button.
pub open spec fn spec_button_name(b: MouseButton) -> Seq<char> {
    match b {
        MouseButton::Left => "left"@,
        MouseButton::Middle => "middle"@,
        MouseButton::Right => "right"@,
    }
}

impl MouseButton {
    /// The name this button is serialized as.
    pub fn wire_name(&self) -> (r: &'static str)
        ensures
            r@ == spec_button_name(*self),
    {
        match self {
            MouseButton::Left => "left",
            MouseButton::Middle => "middle",
            MouseButton::Right => "right",
        }
    }

    /// The button a wire name stands for; anything unknown reads as the
    /// left button.
    pub fn from_wire_name(name: &str) -> (r: MouseButton)
        ensures
            name@ == spec_button_name(MouseButton::Middle) ==> r == MouseButton::Middle,
            name@ == spec_button_name(MouseButton::Right) ==> r == MouseButton::Right,
            name@ != spec_button_name(MouseButton::Middle) && name@ != spec_button_name(
                MouseButton::Right,
            ) ==> r == MouseButton::Left,
    {
        proof {
            reveal_strlit("middle");
            reveal_strlit("right");
            assert("middle"@.len() == 6);
            assert("right"@.len() == 5);
            assert("middle"@ != "right"@);
        }
        if crate::strfind::str_eq(name, "middle") {
            MouseButton::Middle
        } else if crate::strfind::str_eq(name, "right") {
            MouseButton::Right
        } else {
            MouseButton::Left
        }
    }
}

/// One synthesized mouse event.
pub struct DispatchMouseEvent {
    /// The event kind: moved, pressed, or released.
    pub event_type: String,
    pub x: JsCoord,
    pub y: JsCoord,
    pub modifiers: Option<JsUInt>,
    pub button: Option<MouseButton>,
    pub click_count: Option<JsUInt>,
}

/// The (empty) reply to a dispatched mouse event.
pub struct DispatchMouseEventReturnObject {}

/// The method name a [`DispatchMouseEvent`] is sent under.
pub fn dispatch_mouse_event_method() -> (r: &'static str)
    ensures
        r@ == "Input.dispatchMouseEvent"@,
{
    "Input.dispatchMouseEvent"
}

/// One synthesized keyboard event.
pub struct DispatchKeyEvent {
    /// The event kind: keyDown, rawKeyDown, or keyUp.
    pub event_type: String,
    pub modifiers: JsUInt,
    pub key: Option<String>,
    pub text: Option<String>,
    pub code: Option<String>,
    pub unmodified_text: Option<String>,
    pub location: JsUInt,
    pub is_keypad: bool,
    pub auto_repeat: bool,
    pub windows_virtual_key_code: JsUInt,
    pub native_virtual_key_code: JsUInt,
}

/// The (empty) reply to a dispatched key event.
pub struct DispatchKeyEventReturnObject {}

/// The method name a [`DispatchKeyEvent`] is sent under.
pub fn dispatch_key_event_method() -> (r: &'static str)
    ensures
        r@ == "Input.dispatchKeyEvent"@,
{
    "Input.dispatchKeyEvent"
}

/// Insert text as if typed, without key events.
pub struct InsertText {
    pub text: String,
}

/// The (empty) reply to an inserted text.
pub struct InsertTextReturnObject {}

/// The method name an [`InsertText`] is sent under.
pub fn insert_text_method() -> (r: &'static str)
    ensures
        r@ == "Input.insertText"@,
{
    "Input.insertText"
}

impl Default for DispatchMouseEvent {
    /// A motionless move event at the origin.
    fn default() -> (r: DispatchMouseEvent)
        ensures
            r.event_type@ == "mouseMoved"@,
            r.x == 0,
            r.y == 0,
            r.modifiers is None,
            r.button is None,
            r.click_count is None,
    {
        DispatchMouseEvent {
            event_type: String::from_str("mouseMoved"),
            x: 0,
            y: 0,
            modifiers: None,
            button: None,
            click_count: None,
        }
    }
}

} // verus!
