//! The symbolic vocabulary of keys, shared by every platform.

use vstd::prelude::*;

verus! {

/// One key press, named by what the key means rather than by what the
/// platform calls it.
///
/// The set of variants is closed: an input that fits none of them is reported
/// as a failure by whoever reads it, never as a guessed variant.
#[derive(Debug, Copy, Clone, PartialEq, Eq, Hash, Structural)]
pub enum Key {
    /// Backspace.
    Backspace,
    /// Left arrow.
    Left,
    /// Right arrow.
    Right,
    /// Up arrow.
    Up,
    /// Down arrow.
    Down,
    /// Home key.
    Home,
    /// End key.
    End,
    /// Page Up key.
    PageUp,
    /// Page Down key.
    PageDown,
    /// Backward Tab key.
    BackTab,
    /// Delete key.
    Delete,
    /// Insert key.
    Insert,
    /// Function key, by its index.
    F(u8),
    /// An unmodified printable character.
    Char(char),
    /// A character pressed with Alt held. Where the platform cannot tell which
    /// key went with Alt, the payload is the null character.
    Alt(char),
    /// A character pressed with Ctrl held. Where the platform cannot tell which
    /// key went with Ctrl, the payload is the null character.
    Ctrl(char),
    /// Null byte.
    Null,
    /// Esc key.
    Esc,
}

} // verus!
