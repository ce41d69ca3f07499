//! Keyboard input synthesis.
//!
//! A keyboard tracks the currently-pressed keys and the active modifier
//! bits, and turns key names into the wire events a press or release sends.
//! The events are handed back to the caller, who sends them through the
//! transport as target-scoped calls.

use vstd::prelude::*;
use crate::errors::KeyNotFoundError;
use crate::keys::spec_us_layout;
use crate::keys::us_keyboard_layout;
use crate::keys::KeyDefinitionModel;
use crate::protocol::input::DispatchKeyEvent;
use crate::protocol::input::InsertText;
use crate::protocol::types::JsUInt;
use crate::strfind::str_eq;

verus! {

/// What one key event sends: the chosen key name, codes, text, location,
/// after shift has been applied.
pub struct KeyDescription<'a> {
    pub key: &'a str,
    pub key_code: JsUInt,
    pub code: &'a str,
    pub text: Option<&'a str>,
    pub location: JsUInt,
}

/// The same description over character sequences, for specification.
pub struct KeyDescriptionModel {
    pub key: Seq<char>,
    pub key_code: JsUInt,
    pub code: Seq<char>,
    pub text: Option<Seq<char>>,
    pub location: JsUInt,
}

impl<'a> View for KeyDescription<'a> {
    type V = KeyDescriptionModel;

    open spec fn view(&self) -> KeyDescriptionModel {
        KeyDescriptionModel {
            key: self.key@,
            key_code: self.key_code,
            code: self.code@,
            text: match self.text {
                Some(s) => Some(s@),
                None => None,
            },
            location: self.location,
        }
    }
}

/// The first entry of a layout whose key name is `key`.
pub open spec fn find_key_in(layout: Seq<KeyDefinitionModel>, key: Seq<char>) -> Option<
    KeyDefinitionModel,
>
    decreases layout.len(),
{
    if layout.len() == 0 {
        None
    } else if layout[0].key == key {
        Some(layout[0])
    } else {
        find_key_in(layout.drop_first(), key)
    }
}

/// What a key name means on the US layout, if anything.
pub open spec fn spec_key_lookup(key: Seq<char>) -> Option<KeyDefinitionModel> {
    find_key_in(spec_us_layout(), key)
}

proof fn lemma_find_key_hit(layout: Seq<KeyDefinitionModel>, key: Seq<char>, i: int)
    requires
        0 <= i < layout.len(),
        layout[i].key == key,
        forall|j: int| 0 <= j < i ==> layout[j].key != key,
    ensures
        find_key_in(layout, key) == Some(layout[i]),
    decreases i,
{
    if i == 0 {
    } else {
        assert(layout[0].key != key);
        assert(layout.drop_first()[i - 1] == layout[i]);
        lemma_find_key_hit(layout.drop_first(), key, i - 1);
    }
}

proof fn lemma_find_key_miss(layout: Seq<KeyDefinitionModel>, key: Seq<char>)
    requires
        forall|j: int| 0 <= j < layout.len() ==> layout[j].key != key,
    ensures
        find_key_in(layout, key) is None,
    decreases layout.len(),
{
    if layout.len() > 0 {
        assert(forall|j: int|
            0 <= j < layout.drop_first().len() ==> layout.drop_first()[j] == layout[j + 1]);
        lemma_find_key_miss(layout.drop_first(), key);
    }
}

/// What a layout entry describes under a given shift state: the shifted
/// key name and code where shift is held and the entry has them; text is
/// the key name itself for single-character keys, else the entry's fixed
/// text, else its shifted text under shift.
pub open spec fn spec_key_description(d: KeyDefinitionModel, shift: bool) -> KeyDescriptionModel {
    let key = if shift && d.shift_key is Some {
        d.shift_key->0
    } else {
        d.key
    };
    let key_code = if shift && d.shift_key_code is Some {
        d.shift_key_code->0
    } else {
        d.key_code
    };
    let text = if key.len() == 1 {
        Some(key)
    } else if d.text is Some {
        d.text
    } else if shift && d.shift_text is Some {
        d.shift_text
    } else {
        None
    };
    KeyDescriptionModel {
        key,
        key_code,
        code: d.code,
        text,
        location: match d.location {
            Some(l) => l,
            None => 0,
        },
    }
}

/// Shift is held in this modifier state.
pub open spec fn spec_shift_held(modifiers: JsUInt) -> bool {
    modifiers & 8 == 8
}

/// Look a key name up in the layout and describe the event it sends under
/// the given modifiers.  The first matching entry decides; an unknown name
/// is the error the caller reports.
pub fn get_key_definition(key: &str, modifiers: JsUInt) -> (r: Result<
    KeyDescription<'static>,
    KeyNotFoundError,
>)
    ensures
        match r {
            Ok(desc) => match spec_key_lookup(key@) {
                Some(d) => desc@ == spec_key_description(d, spec_shift_held(modifiers)),
                None => false,
            },
            Err(e) => spec_key_lookup(key@) is None && e.key@ == key@,
        },
{
    let layout = us_keyboard_layout();
    let shift = modifiers & 8 == 8;
    let mut i: usize = 0;
    while i < layout.len()
        invariant
            i <= layout@.len(),
            layout@.map_values(|d: crate::keys::KeyDefinition| d@) == spec_us_layout(),
            shift == spec_shift_held(modifiers),
            forall|j: int| 0 <= j < i ==> spec_us_layout()[j].key != key@,
        decreases layout@.len() - i,
    {
        let d = layout[i];
        if str_eq(d.key, key) {
            let sel_key: &'static str = if shift {
                match d.shift_key {
                    Some(s) => s,
                    None => d.key,
                }
            } else {
                d.key
            };
            let sel_code: JsUInt = if shift {
                match d.shift_key_code {
                    Some(c) => c,
                    None => d.key_code,
                }
            } else {
                d.key_code
            };
            let text: Option<&'static str> = if sel_key.unicode_len() == 1 {
                Some(sel_key)
            } else {
                match d.text {
                    Some(t) => Some(t),
                    None => if shift {
                        d.shift_text
                    } else {
                        None
                    },
                }
            };
            let location: JsUInt = match d.location {
                Some(l) => l,
                None => 0,
            };
            let desc = KeyDescription {
                key: sel_key,
                key_code: sel_code,
                code: d.code,
                text,
                location,
            };
            proof {
                assert(spec_us_layout()[i as int] == d@);
                lemma_find_key_hit(spec_us_layout(), key@, i as int);
                assert(desc@ == spec_key_description(d@, shift));
            }
            return Ok(desc);
        }
        i = i + 1;
    }
    proof {
        lemma_find_key_miss(spec_us_layout(), key@);
    }
    Err(KeyNotFoundError { key: key.to_owned() })
}

/// The modifier bit each modifier key name contributes.
pub open spec fn spec_modifier_bit(key: Seq<char>) -> JsUInt {
    if key == "Alt"@ {
        1
    } else if key == "Control"@ {
        2
    } else if key == "Meta"@ {
        4
    } else if key == "Shift"@ {
        8
    } else {
        0
    }
}

/// Whether some pressed-key entry holds this text.
pub open spec fn holds_key(pressed: Seq<String>, s: Seq<char>) -> bool {
    exists|k: int| 0 <= k < pressed.len() && pressed[k]@ == s
}

/// The keyboard of one session: its pressed keys and modifier state.
pub struct Keyboard {
    /// The physical codes currently held down, each at most once.
    pub pressed_keys: Vec<String>,
    /// The active modifier bits.
    pub modifiers: JsUInt,
}

fn find_pressed(pressed: &Vec<String>, code: &str) -> (r: Option<usize>)
    ensures
        match r {
            Some(k) => k < pressed@.len() && pressed@[k as int]@ == code@,
            None => !holds_key(pressed@, code@),
        },
{
    let mut k: usize = 0;
    while k < pressed.len()
        invariant
            k <= pressed@.len(),
            forall|j: int| 0 <= j < k ==> pressed@[j]@ != code@,
        decreases pressed@.len() - k,
    {
        if str_eq(pressed[k].as_str(), code) {
            return Some(k);
        }
        k = k + 1;
    }
    None
}

/// The fields of a key-down event for a given description and final
/// modifier state.
pub open spec fn is_key_down_event(
    ev: DispatchKeyEvent,
    desc: KeyDescriptionModel,
    modifiers: JsUInt,
    auto_repeat: bool,
) -> bool {
    &&& ev.event_type@ == (if desc.text is Some {
        "keyDown"@
    } else {
        "rawKeyDown"@
    })
    &&& ev.modifiers == modifiers
    &&& (match ev.key {
        Some(k) => k@ == desc.key,
        None => false,
    })
    &&& (match ev.text {
        Some(t) => desc.text == Some(t@),
        None => desc.text is None,
    })
    &&& (match ev.code {
        Some(c) => c@ == desc.code,
        None => false,
    })
    &&& (match ev.unmodified_text {
        Some(t) => desc.text == Some(t@),
        None => desc.text is None,
    })
    &&& ev.location == desc.location
    &&& ev.is_keypad == (desc.location == 3)
    &&& ev.auto_repeat == auto_repeat
    &&& ev.windows_virtual_key_code == desc.key_code
    &&& ev.native_virtual_key_code == desc.key_code
}

/// The fields of a key-up event for a given description and final
/// modifier state.
pub open spec fn is_key_up_event(
    ev: DispatchKeyEvent,
    desc: KeyDescriptionModel,
    modifiers: JsUInt,
) -> bool {
    &&& ev.event_type@ == "keyUp"@
    &&& ev.modifiers == modifiers
    &&& (match ev.key {
        Some(k) => k@ == desc.key,
        None => false,
    })
    &&& ev.text is None
    &&& (match ev.code {
        Some(c) => c@ == desc.code,
        None => false,
    })
    &&& ev.unmodified_text is None
    &&& ev.location == desc.location
    &&& ev.is_keypad == false
    &&& ev.auto_repeat == false
    &&& ev.windows_virtual_key_code == desc.key_code
    &&& ev.native_virtual_key_code == desc.key_code
}

impl Keyboard {
    /// Every pressed code is recorded at most once.
    pub open spec fn wf(self) -> bool {
        forall|i: int, j: int|
            0 <= i < j < self.pressed_keys@.len() ==> self.pressed_keys@[i]@
                != self.pressed_keys@[j]@
    }

    /// A fresh keyboard: nothing held, no modifiers.
    pub fn new() -> (r: Keyboard)
        ensures
            r.wf(),
            r.pressed_keys@.len() == 0,
            r.modifiers == 0,
    {
        Keyboard { pressed_keys: Vec::new(), modifiers: 0 }
    }

    /// The modifier bit a key name contributes: Alt, Control, Meta, Shift,
    /// or nothing.
    pub fn modifier_bit(&self, key: &str) -> (r: JsUInt)
        ensures
            r == spec_modifier_bit(key@),
    {
        proof {
            reveal_strlit("Alt");
            reveal_strlit("Control");
            reveal_strlit("Meta");
            reveal_strlit("Shift");
            assert("Alt"@.len() == 3);
            assert("Control"@.len() == 7);
            assert("Meta"@.len() == 4);
            assert("Shift"@.len() == 5);
        }
        if str_eq(key, "Alt") {
            1
        } else if str_eq(key, "Control") {
            2
        } else if str_eq(key, "Meta") {
            4
        } else if str_eq(key, "Shift") {
            8
        } else {
            0
        }
    }

    /// Press a key: record it as held, fold its modifier bit in, and hand
    /// back the key-down event to send — `keyDown` when the key inserts
    /// text, `rawKeyDown` otherwise, repeating when the key was already
    /// held.  An unknown key name changes nothing.
    pub fn down(&mut self, key: &str) -> (r: Result<DispatchKeyEvent, KeyNotFoundError>)
        requires
            old(self).wf(),
        ensures
            final(self).wf(),
            match r {
                Ok(ev) => match spec_key_lookup(key@) {
                    Some(d) => {
                        let desc = spec_key_description(
                            d,
                            spec_shift_held(old(self).modifiers),
                        );
                        &&& final(self).modifiers == (old(self).modifiers | spec_modifier_bit(
                            desc.key,
                        ))
                        &&& (forall|s: Seq<char>|
                            holds_key(final(self).pressed_keys@, s) <==> (holds_key(
                                old(self).pressed_keys@,
                                s,
                            ) || s == desc.code))
                        &&& is_key_down_event(
                            ev,
                            desc,
                            final(self).modifiers,
                            holds_key(old(self).pressed_keys@, desc.code),
                        )
                    },
                    None => false,
                },
                Err(_) => spec_key_lookup(key@) is None && *final(self) == *old(self),
            },
    {
        let desc = match get_key_definition(key, self.modifiers) {
            Ok(d) => d,
            Err(e) => {
                return Err(e);
            },
        };
        let event_type: &'static str = match desc.text {
            Some(_) => "keyDown",
            None => "rawKeyDown",
        };
        let auto_repeat = match find_pressed(&self.pressed_keys, desc.code) {
            Some(_) => true,
            None => false,
        };
        if !auto_repeat {
            let ghost pre = self.pressed_keys@;
            self.pressed_keys.push(desc.code.to_owned());
            proof {
                assert forall|s: Seq<char>|
                    holds_key(self.pressed_keys@, s) <==> (holds_key(pre, s) || s
                        == desc.code@) by {
                    if holds_key(self.pressed_keys@, s) {
                        let w = choose|w: int|
                            0 <= w < self.pressed_keys@.len() && self.pressed_keys@[w]@ == s;
                        if w < pre.len() {
                            assert(pre[w]@ == s);
                        }
                    }
                    if holds_key(pre, s) {
                        let w = choose|w: int| 0 <= w < pre.len() && pre[w]@ == s;
                        assert(self.pressed_keys@[w]@ == s);
                    }
                    if s == desc.code@ {
                        assert(self.pressed_keys@[pre.len() as int]@ == s);
                    }
                }
            }
        }
        let bit = self.modifier_bit(desc.key);
        self.modifiers = self.modifiers | bit;
        let ev = DispatchKeyEvent {
            event_type: String::from_str(event_type),
            modifiers: self.modifiers,
            key: Some(desc.key.to_owned()),
            text: match desc.text {
                Some(t) => Some(t.to_owned()),
                None => None,
            },
            code: Some(desc.code.to_owned()),
            unmodified_text: match desc.text {
                Some(t) => Some(t.to_owned()),
                None => None,
            },
            location: desc.location,
            is_keypad: desc.location == 3,
            auto_repeat,
            windows_virtual_key_code: desc.key_code,
            native_virtual_key_code: desc.key_code,
        };
        Ok(ev)
    }

    /// Release a key: drop it from the held set, clear its modifier bit,
    /// and hand back the key-up event to send.  An unknown key name
    /// changes nothing.
    pub fn up(&mut self, key: &str) -> (r: Result<DispatchKeyEvent, KeyNotFoundError>)
        requires
            old(self).wf(),
        ensures
            final(self).wf(),
            match r {
                Ok(ev) => match spec_key_lookup(key@) {
                    Some(d) => {
                        let desc = spec_key_description(
                            d,
                            spec_shift_held(old(self).modifiers),
                        );
                        &&& final(self).modifiers == (old(self).modifiers & !spec_modifier_bit(
                            desc.key,
                        ))
                        &&& (forall|s: Seq<char>|
                            holds_key(final(self).pressed_keys@, s) <==> (holds_key(
                                old(self).pressed_keys@,
                                s,
                            ) && s != desc.code))
                        &&& is_key_up_event(ev, desc, final(self).modifiers)
                    },
                    None => false,
                },
                Err(_) => spec_key_lookup(key@) is None && *final(self) == *old(self),
            },
    {
        let desc = match get_key_definition(key, self.modifiers) {
            Ok(d) => d,
            Err(e) => {
                return Err(e);
            },
        };
        let bit = self.modifier_bit(desc.key);
        self.modifiers = self.modifiers & !bit;
        match find_pressed(&self.pressed_keys, desc.code) {
            Some(k) => {
                let ghost pre = self.pressed_keys@;
                self.pressed_keys.remove(k);
                proof {
                    assert forall|s: Seq<char>|
                        holds_key(self.pressed_keys@, s) <==> (holds_key(pre, s) && s
                            != desc.code@) by {
                        if holds_key(self.pressed_keys@, s) {
                            let w = choose|w: int|
                                0 <= w < self.pressed_keys@.len() && self.pressed_keys@[w]@ == s;
                            if w < k {
                                assert(pre[w]@ == s);
                            } else {
                                assert(pre[w + 1]@ == s);
                            }
                        }
                        if holds_key(pre, s) && s != desc.code@ {
                            let w = choose|w: int| 0 <= w < pre.len() && pre[w]@ == s;
                            assert(pre[k as int]@ == desc.code@);
                            if w < k {
                                assert(self.pressed_keys@[w]@ == s);
                            } else {
                                assert(w != k);
                                assert(self.pressed_keys@[w - 1]@ == s);
                            }
                        }
                    }
                }
            },
            None => {
                proof {
                    assert forall|s: Seq<char>|
                        holds_key(self.pressed_keys@, s) <==> (holds_key(
                            self.pressed_keys@,
                            s,
                        ) && s != desc.code@) by {
                        if holds_key(self.pressed_keys@, s) && s == desc.code@ {
                            let w = choose|w: int|
                                0 <= w < self.pressed_keys@.len() && self.pressed_keys@[w]@ == s;
                            assert(false);
                        }
                    }
                }
            },
        }
        let ev = DispatchKeyEvent {
            event_type: String::from_str("keyUp"),
            modifiers: self.modifiers,
            key: Some(desc.key.to_owned()),
            text: None,
            code: Some(desc.code.to_owned()),
            unmodified_text: None,
            location: desc.location,
            is_keypad: false,
            auto_repeat: false,
            windows_virtual_key_code: desc.key_code,
            native_virtual_key_code: desc.key_code,
        };
        Ok(ev)
    }

    /// Press and release a key: the two events to send, in order, with the
    /// caller free to pause between them.  Succeeds exactly when the key
    /// name is in the layout.
    pub fn press(&mut self, key: &str) -> (r: Result<
        (DispatchKeyEvent, DispatchKeyEvent),
        KeyNotFoundError,
    >)
        requires
            old(self).wf(),
        ensures
            final(self).wf(),
            r is Ok <==> spec_key_lookup(key@) is Some,
            match r {
                Ok((down_ev, up_ev)) => {
                    &&& (down_ev.event_type@ == "keyDown"@ || down_ev.event_type@
                        == "rawKeyDown"@)
                    &&& up_ev.event_type@ == "keyUp"@
                },
                Err(_) => *final(self) == *old(self),
            },
    {
        let down_ev = match self.down(key) {
            Ok(ev) => ev,
            Err(e) => {
                return Err(e);
            },
        };
        let up_ev = match self.up(key) {
            Ok(ev) => ev,
            Err(e) => {
                proof {
                    assert(false);
                }
                return Err(e);
            },
        };
        Ok((down_ev, up_ev))
    }

    /// The insert-text event that types a piece of text directly.
    pub fn send_character(&self, text: &str) -> (r: InsertText)
        ensures
            r.text@ == text@,
    {
        InsertText { text: text.to_owned() }
    }
}

/// One step of typing a string: a press-and-release of a key the layout
/// knows, or a direct text insertion for anything else.
pub enum TypingAction {
    KeyPress(DispatchKeyEvent, DispatchKeyEvent),
    Insert(InsertText),
}

impl Keyboard {
    /// Type a string: one action per character, a key press where the
    /// layout knows the character as a key name and a direct insertion
    /// otherwise.
    pub fn type_str(&mut self, string_to_type: &str) -> (r: Vec<TypingAction>)
        requires
            old(self).wf(),
        ensures
            final(self).wf(),
            r@.len() == string_to_type@.len(),
            forall|k: int|
                0 <= k < r@.len() ==> match #[trigger] r@[k] {
                    TypingAction::KeyPress(_, _) => spec_key_lookup(
                        string_to_type@.subrange(k, k + 1),
                    ) is Some,
                    TypingAction::Insert(it) => it.text@ == string_to_type@.subrange(k, k + 1)
                        && spec_key_lookup(string_to_type@.subrange(k, k + 1)) is None,
                },
    {
        let n = string_to_type.unicode_len();
        let mut out: Vec<TypingAction> = Vec::new();
        let mut k: usize = 0;
        while k < n
            invariant
                k <= n,
                n == string_to_type@.len(),
                self.wf(),
                out@.len() == k,
                forall|m: int|
                    0 <= m < k ==> match #[trigger] out@[m] {
                        TypingAction::KeyPress(_, _) => spec_key_lookup(
                            string_to_type@.subrange(m, m + 1),
                        ) is Some,
                        TypingAction::Insert(it) => it.text@ == string_to_type@.subrange(m, m + 1)
                            && spec_key_lookup(string_to_type@.subrange(m, m + 1)) is None,
                    },
            decreases n - k,
        {
            let one = string_to_type.substring_char(k, k + 1);
            match self.press(one) {
                Ok((down_ev, up_ev)) => {
                    out.push(TypingAction::KeyPress(down_ev, up_ev));
                },
                Err(_) => {
                    out.push(TypingAction::Insert(self.send_character(one)));
                },
            }
            k = k + 1;
        }
        out
    }
}

} // verus!
