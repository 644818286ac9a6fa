//! Per-device modifier tracking: whether Ctrl, Alt or Super is currently
//! held.  While any of the three is held, remapping is suspended so that
//! keyboard shortcuts keep their QWERTY positions.

use vstd::prelude::*;
use crate::keys::{
    KEY_LEFTALT, KEY_LEFTCTRL, KEY_LEFTMETA, KEY_RIGHTALT, KEY_RIGHTCTRL, KEY_RIGHTMETA,
};
use crate::remap::dvorak_remap;

verus! {

pub open spec fn is_ctrl_key(k: u16) -> bool {
    k == KEY_LEFTCTRL || k == KEY_RIGHTCTRL
}

pub open spec fn is_alt_key(k: u16) -> bool {
    k == KEY_LEFTALT || k == KEY_RIGHTALT
}

pub open spec fn is_super_key(k: u16) -> bool {
    k == KEY_LEFTMETA || k == KEY_RIGHTMETA
}

/// Which modifiers a device currently holds down.  Owned by a single device
/// reader; mutated only on that device's own modifier press/release events.
#[derive(Clone, Copy, PartialEq, Eq, Structural, Debug)]
pub struct ModifierState {
    pub ctrl: bool,
    pub alt: bool,
    pub super_key: bool,
}

/// What a modifier state becomes on observing a key event: the pair a
/// modifier key belongs to (left and right merged) follows the most recent
/// press or release of either key; any other key leaves the state unchanged.
pub open spec fn spec_update(s: ModifierState, code: u16, value: i32) -> ModifierState {
    if is_ctrl_key(code) {
        ModifierState { ctrl: value != 0, ..s }
    } else if is_alt_key(code) {
        ModifierState { alt: value != 0, ..s }
    } else if is_super_key(code) {
        ModifierState { super_key: value != 0, ..s }
    } else {
        s
    }
}

pub open spec fn spec_any_held(s: ModifierState) -> bool {
    s.ctrl || s.alt || s.super_key
}

/// The code a key event is delivered with: unchanged while any modifier is
/// held (shortcut passthrough), otherwise sent through the remap table.
pub open spec fn spec_output_code(s: ModifierState, code: u16) -> u16 {
    if spec_any_held(s) {
        code
    } else {
        dvorak_remap(code)
    }
}

impl ModifierState {
    /// A fresh state: nothing held.
    pub fn new() -> (s: Self)
        ensures
            s == (ModifierState { ctrl: false, alt: false, super_key: false }),
    {
        ModifierState { ctrl: false, alt: false, super_key: false }
    }

    /// Records a key event: a press (or autorepeat) of a modifier key marks
    /// its pair held, a release marks it free; non-modifier keys change
    /// nothing.
    pub fn update(&mut self, code: u16, value: i32)
        ensures
            *final(self) == spec_update(*old(self), code, value),
    {
        if code == KEY_LEFTCTRL || code == KEY_RIGHTCTRL {
            self.ctrl = value != 0;
        } else if code == KEY_LEFTALT || code == KEY_RIGHTALT {
            self.alt = value != 0;
        } else if code == KEY_LEFTMETA || code == KEY_RIGHTMETA {
            self.super_key = value != 0;
        }
    }

    /// Whether any of Ctrl, Alt or Super is currently held.
    pub fn any_held(&self) -> (r: bool)
        ensures
            r == spec_any_held(*self),
    {
        self.ctrl || self.alt || self.super_key
    }
}

/// Passthrough invariant: while any modifier is held, the delivered code is
/// the original input code, whatever the remap table says.
pub proof fn lemma_modifier_passthrough(s: ModifierState, code: u16)
    requires
        spec_any_held(s),
    ensures
        spec_output_code(s, code) == code,
{
}

} // verus!
