//! The US keyboard layout: which wire key codes, physical codes, and
//! shifted variants each key name stands for.  Letters, the digit row with
//! its shifted symbols, and the modifier and navigation keys are covered.

use vstd::prelude::*;
use crate::protocol::types::JsUInt;

verus! {

/// One key of the layout.
#[derive(Clone, Copy)]
pub struct KeyDefinition {
    /// The key name looked up, unshifted.
    pub key: &'static str,
    pub key_code: JsUInt,
    /// The key name produced while shift is held.
    pub shift_key: Option<&'static str>,
    pub shift_key_code: Option<JsUInt>,
    /// The physical key code.
    pub code: &'static str,
    /// Fixed text the key inserts, where it is not the key name itself.
    pub text: Option<&'static str>,
    pub shift_text: Option<&'static str>,
    /// The key location, where it is not the standard one.
    pub location: Option<JsUInt>,
}

/// The same entry over character sequences, for specification.
pub struct KeyDefinitionModel {
    pub key: Seq<char>,
    pub key_code: JsUInt,
    pub shift_key: Option<Seq<char>>,
    pub shift_key_code: Option<JsUInt>,
    pub code: Seq<char>,
    pub text: Option<Seq<char>>,
    pub shift_text: Option<Seq<char>>,
    pub location: Option<JsUInt>,
}

impl View for KeyDefinition {
    type V = KeyDefinitionModel;

    open spec fn view(&self) -> KeyDefinitionModel {
        KeyDefinitionModel {
            key: self.key@,
            key_code: self.key_code,
            shift_key: match self.shift_key {
                Some(s) => Some(s@),
                None => None,
            },
            shift_key_code: self.shift_key_code,
            code: self.code@,
            text: match self.text {
                Some(s) => Some(s@),
                None => None,
            },
            shift_text: match self.shift_text {
                Some(s) => Some(s@),
                None => None,
            },
            location: self.location,
        }
    }
}

/// The table, in lookup order.
pub open spec fn spec_us_layout() -> Seq<KeyDefinitionModel> {
    seq![
        KeyDefinitionModel { key: "Alt"@, key_code: 18u32, shift_key: None, shift_key_code: None, code: "AltLeft"@, text: None, shift_text: None, location: Some(1u32) },
        KeyDefinitionModel { key: "Control"@, key_code: 17u32, shift_key: None, shift_key_code: None, code: "ControlLeft"@, text: None, shift_text: None, location: Some(1u32) },
        KeyDefinitionModel { key: "Meta"@, key_code: 91u32, shift_key: None, shift_key_code: None, code: "MetaLeft"@, text: None, shift_text: None, location: Some(1u32) },
        KeyDefinitionModel { key: "Shift"@, key_code: 16u32, shift_key: None, shift_key_code: None, code: "ShiftLeft"@, text: None, shift_text: None, location: Some(1u32) },
        KeyDefinitionModel { key: "Enter"@, key_code: 13u32, shift_key: None, shift_key_code: None, code: "Enter"@, text: Some("\r"@), shift_text: None, location: None },
        KeyDefinitionModel { key: "Tab"@, key_code: 9u32, shift_key: None, shift_key_code: None, code: "Tab"@, text: None, shift_text: None, location: None },
        KeyDefinitionModel { key: "Backspace"@, key_code: 8u32, shift_key: None, shift_key_code: None, code: "Backspace"@, text: None, shift_text: None, location: None },
        KeyDefinitionModel { key: "Escape"@, key_code: 27u32, shift_key: None, shift_key_code: None, code: "Escape"@, text: None, shift_text: None, location: None },
        KeyDefinitionModel { key: " "@, key_code: 32u32, shift_key: None, shift_key_code: None, code: "Space"@, text: None, shift_text: None, location: None },
        KeyDefinitionModel { key: "ArrowLeft"@, key_code: 37u32, shift_key: None, shift_key_code: None, code: "ArrowLeft"@, text: None, shift_text: None, location: None },
        KeyDefinitionModel { key: "ArrowUp"@, key_code: 38u32, shift_key: None, shift_key_code: None, code: "ArrowUp"@, text: None, shift_text: None, location: None },
        KeyDefinitionModel { key: "ArrowRight"@, key_code: 39u32, shift_key: None, shift_key_code: None, code: "ArrowRight"@, text: None, shift_text: None, location: None },
        KeyDefinitionModel { key: "ArrowDown"@, key_code: 40u32, shift_key: None, shift_key_code: None, code: "ArrowDown"@, text: None, shift_text: None, location: None },
        KeyDefinitionModel { key: "Home"@, key_code: 36u32, shift_key: None, shift_key_code: None, code: "Home"@, text: None, shift_text: None, location: None },
        KeyDefinitionModel { key: "End"@, key_code: 35u32, shift_key: None, shift_key_code: None, code: "End"@, text: None, shift_text: None, location: None },
        KeyDefinitionModel { key: "PageUp"@, key_code: 33u32, shift_key: None, shift_key_code: None, code: "PageUp"@, text: None, shift_text: None, location: None },
        KeyDefinitionModel { key: "PageDown"@, key_code: 34u32, shift_key: None, shift_key_code: None, code: "PageDown"@, text: None, shift_text: None, location: None },
        KeyDefinitionModel { key: "Delete"@, key_code: 46u32, shift_key: None, shift_key_code: None, code: "Delete"@, text: None, shift_text: None, location: None },
        KeyDefinitionModel { key: "0"@, key_code: 48u32, shift_key: Some(")"@), shift_key_code: None, code: "Digit0"@, text: None, shift_text: None, location: None },
        KeyDefinitionModel { key: "1"@, key_code: 49u32, shift_key: Some("!"@), shift_key_code: None, code: "Digit1"@, text: None, shift_text: None, location: None },
        KeyDefinitionModel { key: "2"@, key_code: 50u32, shift_key: Some("@"@), shift_key_code: None, code: "Digit2"@, text: None, shift_text: None, location: None },
        KeyDefinitionModel { key: "3"@, key_code: 51u32, shift_key: Some("#"@), shift_key_code: None, code: "Digit3"@, text: None, shift_text: None, location: None },
        KeyDefinitionModel { key: "4"@, key_code: 52u32, shift_key: Some("$"@), shift_key_code: None, code: "Digit4"@, text: None, shift_text: None, location: None },
        KeyDefinitionModel { key: "5"@, key_code: 53u32, shift_key: Some("%"@), shift_key_code: None, code: "Digit5"@, text: None, shift_text: None, location: None },
        KeyDefinitionModel { key: "6"@, key_code: 54u32, shift_key: Some("^"@), shift_key_code: None, code: "Digit6"@, text: None, shift_text: None, location: None },
        KeyDefinitionModel { key: "7"@, key_code: 55u32, shift_key: Some("&"@), shift_key_code: None, code: "Digit7"@, text: None, shift_text: None, location: None },
        KeyDefinitionModel { key: "8"@, key_code: 56u32, shift_key: Some("*"@), shift_key_code: None, code: "Digit8"@, text: None, shift_text: None, location: None },
        KeyDefinitionModel { key: "9"@, key_code: 57u32, shift_key: Some("("@), shift_key_code: None, code: "Digit9"@, text: None, shift_text: None, location: None },
        KeyDefinitionModel { key: "a"@, key_code: 65u32, shift_key: Some("A"@), shift_key_code: None, code: "KeyA"@, text: None, shift_text: None, location: None },
        KeyDefinitionModel { key: "b"@, key_code: 66u32, shift_key: Some("B"@), shift_key_code: None, code: "KeyB"@, text: None, shift_text: None, location: None },
        KeyDefinitionModel { key: "c"@, key_code: 67u32, shift_key: Some("C"@), shift_key_code: None, code: "KeyC"@, text: None, shift_text: None, location: None },
        KeyDefinitionModel { key: "d"@, key_code: 68u32, shift_key: Some("D"@), shift_key_code: None, code: "KeyD"@, text: None, shift_text: None, location: None },
        KeyDefinitionModel { key: "e"@, key_code: 69u32, shift_key: Some("E"@), shift_key_code: None, code: "KeyE"@, text: None, shift_text: None, location: None },
        KeyDefinitionModel { key: "f"@, key_code: 70u32, shift_key: Some("F"@), shift_key_code: None, code: "KeyF"@, text: None, shift_text: None, location: None },
        KeyDefinitionModel { key: "g"@, key_code: 71u32, shift_key: Some("G"@), shift_key_code: None, code: "KeyG"@, text: None, shift_text: None, location: None },
        KeyDefinitionModel { key: "h"@, key_code: 72u32, shift_key: Some("H"@), shift_key_code: None, code: "KeyH"@, text: None, shift_text: None, location: None },
        KeyDefinitionModel { key: "i"@, key_code: 73u32, shift_key: Some("I"@), shift_key_code: None, code: "KeyI"@, text: None, shift_text: None, location: None },
        KeyDefinitionModel { key: "j"@, key_code: 74u32, shift_key: Some("J"@), shift_key_code: None, code: "KeyJ"@, text: None, shift_text: None, location: None },
        KeyDefinitionModel { key: "k"@, key_code: 75u32, shift_key: Some("K"@), shift_key_code: None, code: "KeyK"@, text: None, shift_text: None, location: None },
        KeyDefinitionModel { key: "l"@, key_code: 76u32, shift_key: Some("L"@), shift_key_code: None, code: "KeyL"@, text: None, shift_text: None, location: None },
        KeyDefinitionModel { key: "m"@, key_code: 77u32, shift_key: Some("M"@), shift_key_code: None, code: "KeyM"@, text: None, shift_text: None, location: None },
        KeyDefinitionModel { key: "n"@, key_code: 78u32, shift_key: Some("N"@), shift_key_code: None, code: "KeyN"@, text: None, shift_text: None, location: None },
        KeyDefinitionModel { key: "o"@, key_code: 79u32, shift_key: Some("O"@), shift_key_code: None, code: "KeyO"@, text: None, shift_text: None, location: None },
        KeyDefinitionModel { key: "p"@, key_code: 80u32, shift_key: Some("P"@), shift_key_code: None, code: "KeyP"@, text: None, shift_text: None, location: None },
        KeyDefinitionModel { key: "q"@, key_code: 81u32, shift_key: Some("Q"@), shift_key_code: None, code: "KeyQ"@, text: None, shift_text: None, location: None },
        KeyDefinitionModel { key: "r"@, key_code: 82u32, shift_key: Some("R"@), shift_key_code: None, code: "KeyR"@, text: None, shift_text: None, location: None },
        KeyDefinitionModel { key: "s"@, key_code: 83u32, shift_key: Some("S"@), shift_key_code: None, code: "KeyS"@, text: None, shift_text: None, location: None },
        KeyDefinitionModel { key: "t"@, key_code: 84u32, shift_key: Some("T"@), shift_key_code: None, code: "KeyT"@, text: None, shift_text: None, location: None },
        KeyDefinitionModel { key: "u"@, key_code: 85u32, shift_key: Some("U"@), shift_key_code: None, code: "KeyU"@, text: None, shift_text: None, location: None },
        KeyDefinitionModel { key: "v"@, key_code: 86u32, shift_key: Some("V"@), shift_key_code: None, code: "KeyV"@, text: None, shift_text: None, location: None },
        KeyDefinitionModel { key: "w"@, key_code: 87u32, shift_key: Some("W"@), shift_key_code: None, code: "KeyW"@, text: None, shift_text: None, location: None },
        KeyDefinitionModel { key: "x"@, key_code: 88u32, shift_key: Some("X"@), shift_key_code: None, code: "KeyX"@, text: None, shift_text: None, location: None },
        KeyDefinitionModel { key: "y"@, key_code: 89u32, shift_key: Some("Y"@), shift_key_code: None, code: "KeyY"@, text: None, shift_text: None, location: None },
        KeyDefinitionModel { key: "z"@, key_code: 90u32, shift_key: Some("Z"@), shift_key_code: None, code: "KeyZ"@, text: None, shift_text: None, location: None },
    ]
}

/// The table as values.
pub fn us_keyboard_layout() -> (r: Vec<KeyDefinition>)
    ensures
        r@.map_values(|d: KeyDefinition| d@) == spec_us_layout(),
{
    let mut v: Vec<KeyDefinition> = Vec::new();
    v.push(KeyDefinition { key: "Alt", key_code: 18, shift_key: None, shift_key_code: None, code: "AltLeft", text: None, shift_text: None, location: Some(1u32) });
    v.push(KeyDefinition { key: "Control", key_code: 17, shift_key: None, shift_key_code: None, code: "ControlLeft", text: None, shift_text: None, location: Some(1u32) });
    v.push(KeyDefinition { key: "Meta", key_code: 91, shift_key: None, shift_key_code: None, code: "MetaLeft", text: None, shift_text: None, location: Some(1u32) });
    v.push(KeyDefinition { key: "Shift", key_code: 16, shift_key: None, shift_key_code: None, code: "ShiftLeft", text: None, shift_text: None, location: Some(1u32) });
    v.push(KeyDefinition { key: "Enter", key_code: 13, shift_key: None, shift_key_code: None, code: "Enter", text: Some("\r"), shift_text: None, location: None });
    v.push(KeyDefinition { key: "Tab", key_code: 9, shift_key: None, shift_key_code: None, code: "Tab", text: None, shift_text: None, location: None });
    v.push(KeyDefinition { key: "Backspace", key_code: 8, shift_key: None, shift_key_code: None, code: "Backspace", text: None, shift_text: None, location: None });
    v.push(KeyDefinition { key: "Escape", key_code: 27, shift_key: None, shift_key_code: None, code: "Escape", text: None, shift_text: None, location: None });
    v.push(KeyDefinition { key: " ", key_code: 32, shift_key: None, shift_key_code: None, code: "Space", text: None, shift_text: None, location: None });
    v.push(KeyDefinition { key: "ArrowLeft", key_code: 37, shift_key: None, shift_key_code: None, code: "ArrowLeft", text: None, shift_text: None, location: None });
    v.push(KeyDefinition { key: "ArrowUp", key_code: 38, shift_key: None, shift_key_code: None, code: "ArrowUp", text: None, shift_text: None, location: None });
    v.push(KeyDefinition { key: "ArrowRight", key_code: 39, shift_key: None, shift_key_code: None, code: "ArrowRight", text: None, shift_text: None, location: None });
    v.push(KeyDefinition { key: "ArrowDown", key_code: 40, shift_key: None, shift_key_code: None, code: "ArrowDown", text: None, shift_text: None, location: None });
    v.push(KeyDefinition { key: "Home", key_code: 36, shift_key: None, shift_key_code: None, code: "Home", text: None, shift_text: None, location: None });
    v.push(KeyDefinition { key: "End", key_code: 35, shift_key: None, shift_key_code: None, code: "End", text: None, shift_text: None, location: None });
    v.push(KeyDefinition { key: "PageUp", key_code: 33, shift_key: None, shift_key_code: None, code: "PageUp", text: None, shift_text: None, location: None });
    v.push(KeyDefinition { key: "PageDown", key_code: 34, shift_key: None, shift_key_code: None, code: "PageDown", text: None, shift_text: None, location: None });
    v.push(KeyDefinition { key: "Delete", key_code: 46, shift_key: None, shift_key_code: None, code: "Delete", text: None, shift_text: None, location: None });
    v.push(KeyDefinition { key: "0", key_code: 48, shift_key: Some(")"), shift_key_code: None, code: "Digit0", text: None, shift_text: None, location: None });
    v.push(KeyDefinition { key: "1", key_code: 49, shift_key: Some("!"), shift_key_code: None, code: "Digit1", text: None, shift_text: None, location: None });
    v.push(KeyDefinition { key: "2", key_code: 50, shift_key: Some("@"), shift_key_code: None, code: "Digit2", text: None, shift_text: None, location: None });
    v.push(KeyDefinition { key: "3", key_code: 51, shift_key: Some("#"), shift_key_code: None, code: "Digit3", text: None, shift_text: None, location: None });
    v.push(KeyDefinition { key: "4", key_code: 52, shift_key: Some("$"), shift_key_code: None, code: "Digit4", text: None, shift_text: None, location: None });
    v.push(KeyDefinition { key: "5", key_code: 53, shift_key: Some("%"), shift_key_code: None, code: "Digit5", text: None, shift_text: None, location: None });
    v.push(KeyDefinition { key: "6", key_code: 54, shift_key: Some("^"), shift_key_code: None, code: "Digit6", text: None, shift_text: None, location: None });
    v.push(KeyDefinition { key: "7", key_code: 55, shift_key: Some("&"), shift_key_code: None, code: "Digit7", text: None, shift_text: None, location: None });
    v.push(KeyDefinition { key: "8", key_code: 56, shift_key: Some("*"), shift_key_code: None, code: "Digit8", text: None, shift_text: None, location: None });
    v.push(KeyDefinition { key: "9", key_code: 57, shift_key: Some("("), shift_key_code: None, code: "Digit9", text: None, shift_text: None, location: None });
    v.push(KeyDefinition { key: "a", key_code: 65, shift_key: Some("A"), shift_key_code: None, code: "KeyA", text: None, shift_text: None, location: None });
    v.push(KeyDefinition { key: "b", key_code: 66, shift_key: Some("B"), shift_key_code: None, code: "KeyB", text: None, shift_text: None, location: None });
    v.push(KeyDefinition { key: "c", key_code: 67, shift_key: Some("C"), shift_key_code: None, code: "KeyC", text: None, shift_text: None, location: None });
    v.push(KeyDefinition { key: "d", key_code: 68, shift_key: Some("D"), shift_key_code: None, code: "KeyD", text: None, shift_text: None, location: None });
    v.push(KeyDefinition { key: "e", key_code: 69, shift_key: Some("E"), shift_key_code: None, code: "KeyE", text: None, shift_text: None, location: None });
    v.push(KeyDefinition { key: "f", key_code: 70, shift_key: Some("F"), shift_key_code: None, code: "KeyF", text: None, shift_text: None, location: None });
    v.push(KeyDefinition { key: "g", key_code: 71, shift_key: Some("G"), shift_key_code: None, code: "KeyG", text: None, shift_text: None, location: None });
    v.push(KeyDefinition { key: "h", key_code: 72, shift_key: Some("H"), shift_key_code: None, code: "KeyH", text: None, shift_text: None, location: None });
    v.push(KeyDefinition { key: "i", key_code: 73, shift_key: Some("I"), shift_key_code: None, code: "KeyI", text: None, shift_text: None, location: None });
    v.push(KeyDefinition { key: "j", key_code: 74, shift_key: Some("J"), shift_key_code: None, code: "KeyJ", text: None, shift_text: None, location: None });
    v.push(KeyDefinition { key: "k", key_code: 75, shift_key: Some("K"), shift_key_code: None, code: "KeyK", text: None, shift_text: None, location: None });
    v.push(KeyDefinition { key: "l", key_code: 76, shift_key: Some("L"), shift_key_code: None, code: "KeyL", text: None, shift_text: None, location: None });
    v.push(KeyDefinition { key: "m", key_code: 77, shift_key: Some("M"), shift_key_code: None, code: "KeyM", text: None, shift_text: None, location: None });
    v.push(KeyDefinition { key: "n", key_code: 78, shift_key: Some("N"), shift_key_code: None, code: "KeyN", text: None, shift_text: None, location: None });
    v.push(KeyDefinition { key: "o", key_code: 79, shift_key: Some("O"), shift_key_code: None, code: "KeyO", text: None, shift_text: None, location: None });
    v.push(KeyDefinition { key: "p", key_code: 80, shift_key: Some("P"), shift_key_code: None, code: "KeyP", text: None, shift_text: None, location: None });
    v.push(KeyDefinition { key: "q", key_code: 81, shift_key: Some("Q"), shift_key_code: None, code: "KeyQ", text: None, shift_text: None, location: None });
    v.push(KeyDefinition { key: "r", key_code: 82, shift_key: Some("R"), shift_key_code: None, code: "KeyR", text: None, shift_text: None, location: None });
    v.push(KeyDefinition { key: "s", key_code: 83, shift_key: Some("S"), shift_key_code: None, code: "KeyS", text: None, shift_text: None, location: None });
    v.push(KeyDefinition { key: "t", key_code: 84, shift_key: Some("T"), shift_key_code: None, code: "KeyT", text: None, shift_text: None, location: None });
    v.push(KeyDefinition { key: "u", key_code: 85, shift_key: Some("U"), shift_key_code: None, code: "KeyU", text: None, shift_text: None, location: None });
    v.push(KeyDefinition { key: "v", key_code: 86, shift_key: Some("V"), shift_key_code: None, code: "KeyV", text: None, shift_text: None, location: None });
    v.push(KeyDefinition { key: "w", key_code: 87, shift_key: Some("W"), shift_key_code: None, code: "KeyW", text: None, shift_text: None, location: None });
    v.push(KeyDefinition { key: "x", key_code: 88, shift_key: Some("X"), shift_key_code: None, code: "KeyX", text: None, shift_text: None, location: None });
    v.push(KeyDefinition { key: "y", key_code: 89, shift_key: Some("Y"), shift_key_code: None, code: "KeyY", text: None, shift_text: None, location: None });
    v.push(KeyDefinition { key: "z", key_code: 90, shift_key: Some("Z"), shift_key_code: None, code: "KeyZ", text: None, shift_text: None, location: None });
    proof {
        assert(v@.map_values(|d: KeyDefinition| d@) =~= spec_us_layout());
    }
    v
}

} // verus!
