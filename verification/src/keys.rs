//! Key identities and the three-action key-binding table.
//!
//! A key identity is a plain model of a host keystroke: a key code plus a
//! modifier set. The host's own key type is converted to this model at the
//! boundary; inside the library only structural equality on it matters.

use vstd::prelude::*;

verus! {

/// A key without modifiers, as the host reports it.
#[derive(Clone, Copy, PartialEq, Eq, Structural, Debug)]
pub enum KeyCode {
    PageDown,
    PageUp,
    Left,
    Down,
    Up,
    Right,
    Home,
    End,
    Backspace,
    Delete,
    Insert,
    F(u8),
    Char(char),
    Tab,
    Esc,
    Enter,
    CapsLock,
    ScrollLock,
    NumLock,
    PrintScreen,
    Pause,
    Menu,
}

/// A key code together with its modifier set.
#[derive(Clone, Copy, PartialEq, Eq, Structural, Debug)]
pub struct KeyIdentity {
    pub code: KeyCode,
    pub ctrl: bool,
    pub alt: bool,
    pub shift: bool,
    pub super_key: bool,
}

/// A key identity with no modifiers held.
pub open spec fn plain_key(code: KeyCode) -> KeyIdentity {
    KeyIdentity { code, ctrl: false, alt: false, shift: false, super_key: false }
}

impl KeyIdentity {
    /// Build a key identity with no modifiers held.
    pub fn plain(code: KeyCode) -> (r: KeyIdentity)
        ensures
            r == plain_key(code),
    {
        KeyIdentity { code, ctrl: false, alt: false, shift: false, super_key: false }
    }
}

/// The key bound to each of the three recognized actions.
#[derive(Clone, Copy, PartialEq, Eq, Structural, Debug)]
pub struct KeyBindings {
    pub confirm: KeyIdentity,
    pub cancel: KeyIdentity,
    pub accept: KeyIdentity,
}

/// Compiled-in defaults: confirm = Enter, cancel = Esc, accept = 'y'.
pub open spec fn default_bindings() -> KeyBindings {
    KeyBindings {
        confirm: plain_key(KeyCode::Enter),
        cancel: plain_key(KeyCode::Esc),
        accept: plain_key(KeyCode::Char('y')),
    }
}

/// Compiled-in defaults of the two-key flow: confirm = 'y', cancel = 'n'.
pub open spec fn two_key_default_bindings() -> KeyBindings {
    KeyBindings {
        confirm: plain_key(KeyCode::Char('y')),
        cancel: plain_key(KeyCode::Char('n')),
        accept: plain_key(KeyCode::Char('y')),
    }
}

/// An override applied to a base binding: the override where one was
/// supplied and parsed, otherwise the base survives unchanged.
pub open spec fn or_base(over: Option<KeyIdentity>, base: KeyIdentity) -> KeyIdentity {
    match over {
        Some(k) => k,
        None => base,
    }
}

impl KeyBindings {
    /// The default binding table (confirm = Enter, cancel = Esc, accept = 'y').
    pub fn defaults() -> (r: KeyBindings)
        ensures
            r == default_bindings(),
    {
        KeyBindings {
            confirm: KeyIdentity::plain(KeyCode::Enter),
            cancel: KeyIdentity::plain(KeyCode::Esc),
            accept: KeyIdentity::plain(KeyCode::Char('y')),
        }
    }

    /// The two-key flow's default table (confirm = 'y', cancel = 'n').
    pub fn two_key_defaults() -> (r: KeyBindings)
        ensures
            r == two_key_default_bindings(),
    {
        KeyBindings {
            confirm: KeyIdentity::plain(KeyCode::Char('y')),
            cancel: KeyIdentity::plain(KeyCode::Char('n')),
            accept: KeyIdentity::plain(KeyCode::Char('y')),
        }
    }

    /// Apply configured overrides to this table. A missing or unparseable
    /// configuration entry arrives as `None` and leaves the compiled-in
    /// binding in place, so configuration can never block startup.
    pub fn with_overrides(
        self,
        confirm: Option<KeyIdentity>,
        cancel: Option<KeyIdentity>,
        accept: Option<KeyIdentity>,
    ) -> (r: KeyBindings)
        ensures
            r.confirm == or_base(confirm, self.confirm),
            r.cancel == or_base(cancel, self.cancel),
            r.accept == or_base(accept, self.accept),
    {
        KeyBindings {
            confirm: match confirm {
                Some(k) => k,
                None => self.confirm,
            },
            cancel: match cancel {
                Some(k) => k,
                None => self.cancel,
            },
            accept: match accept {
                Some(k) => k,
                None => self.accept,
            },
        }
    }
}

} // verus!
