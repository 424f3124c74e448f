//! Key codes, modifier sets and key bindings.

use vstd::prelude::*;

verus! {

/// A key as the terminal reports it, without modifiers.
#[derive(Clone, Copy, Debug, PartialEq, Eq, Structural, Hash)]
pub enum KeyCode {
    Char(char),
    F(u8),
    Up,
    Down,
    Left,
    Right,
    PageUp,
    PageDown,
    Enter,
    Tab,
    BackTab,
    Esc,
    /// No key: an action with this code is reached by other routes.
    Null,
}

/// The set of held modifiers, one bit each.
pub type KeyModifiers = u8;

pub const NONE: KeyModifiers = 0u8;

pub const SHIFT: KeyModifiers = 1u8;

pub const CONTROL: KeyModifiers = 2u8;

pub const ALT: KeyModifiers = 4u8;

pub const SUPER: KeyModifiers = 8u8;

/// A key together with the exact set of modifiers that must be held.
#[derive(Clone, Copy, Debug, PartialEq, Eq, Structural, Hash)]
pub struct KeyBinding {
    pub code: KeyCode,
    pub modifiers: KeyModifiers,
}

/// The binding of `code` with the modifier set `modifiers`.
pub open spec fn kb(code: KeyCode, modifiers: KeyModifiers) -> KeyBinding {
    KeyBinding { code, modifiers }
}

/// The binding of the character `c` with no modifier held.
pub open spec fn ch(c: char) -> KeyBinding {
    kb(KeyCode::Char(c), NONE)
}

/// The binding of Ctrl and the character `c`.
pub open spec fn ctrl(c: char) -> KeyBinding {
    kb(KeyCode::Char(c), CONTROL)
}

impl KeyBinding {
    /// A binding of `code` with exactly the modifiers `modifiers`.
    pub fn new(code: KeyCode, modifiers: KeyModifiers) -> (r: KeyBinding)
        ensures
            r == kb(code, modifiers),
    {
        KeyBinding { code, modifiers }
    }

    /// A binding of `code` with no modifier held.
    pub fn plain(code: KeyCode) -> (r: KeyBinding)
        ensures
            r == kb(code, NONE),
    {
        KeyBinding { code, modifiers: NONE }
    }
}

/// Every encoding under which terminals deliver Shift+Tab. The first has no
/// modifier bit; the others carry SHIFT, because bindings match modifiers
/// exactly.
pub open spec fn spec_shift_tab_keys() -> Seq<KeyBinding> {
    seq![kb(KeyCode::BackTab, NONE), kb(KeyCode::BackTab, SHIFT), kb(KeyCode::Tab, SHIFT)]
}

/// The encodings of Shift+Tab, in the order of [`spec_shift_tab_keys`].
pub fn shift_tab_keys() -> (r: Vec<KeyBinding>)
    ensures
        r@ == spec_shift_tab_keys(),
{
    let mut v: Vec<KeyBinding> = Vec::new();
    v.push(KeyBinding::new(KeyCode::BackTab, NONE));
    v.push(KeyBinding::new(KeyCode::BackTab, SHIFT));
    v.push(KeyBinding::new(KeyCode::Tab, SHIFT));
    v
}

} // verus!
