//! Key and pen-button dispatch.
//!
//! The compositor hands the engine raw key events; a keyboard-layout table
//! (kept outside the library) resolves each key code to a character. This
//! module decides what a resolved character, or a pen button, means for the
//! session: undo the last stroke, commit the current preedit, or nothing.

use vstd::prelude::*;

verus! {

/// What a resolved key press or pen button asks the session to do.
#[derive(Clone, Copy, Debug, PartialEq, Eq, Structural)]
pub enum KeyCommand {
    /// Discard the last stroke and re-request recognition.
    Undo,
    /// Commit the current preedit text to the focused application.
    CommitInput,
    /// Deliberately unhandled: logged at most, no state change.
    Ignored,
}

/// Which command a resolved character carries.
pub open spec fn key_command_spec(c: char) -> KeyCommand {
    if c == 'z' {
        KeyCommand::Undo
    } else if c == '\r' {
        KeyCommand::CommitInput
    } else {
        KeyCommand::Ignored
    }
}

/// Dispatch a character resolved through the keyboard layout.
pub fn key_command(c: char) -> (r: KeyCommand)
    ensures
        r == key_command_spec(c),
{
    if c == 'z' {
        KeyCommand::Undo
    } else if c == '\r' {
        KeyCommand::CommitInput
    } else {
        KeyCommand::Ignored
    }
}

/// Which command a pen (tablet tool) button carries.
pub open spec fn pen_button_command_spec(button: u32) -> KeyCommand {
    if button == 331u32 {
        KeyCommand::CommitInput
    } else if button == 332u32 {
        KeyCommand::Undo
    } else {
        KeyCommand::Ignored
    }
}

/// Dispatch a pressed pen button by its button code.
pub fn pen_button_command(button: u32) -> (r: KeyCommand)
    ensures
        r == pen_button_command_spec(button),
{
    if button == 331 {
        KeyCommand::CommitInput
    } else if button == 332 {
        KeyCommand::Undo
    } else {
        KeyCommand::Ignored
    }
}

/// Offset between the protocol's key codes and the layout table's key codes.
pub const KEYCODE_OFFSET: u32 = 8;

/// Translate a protocol key code to a layout-table key code.
pub fn layout_keycode(key: u32) -> (r: u32)
    requires
        key + KEYCODE_OFFSET <= u32::MAX,
    ensures
        r == key + KEYCODE_OFFSET,
{
    key + KEYCODE_OFFSET
}

} // verus!
