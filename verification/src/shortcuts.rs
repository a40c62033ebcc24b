//! The keyboard shortcut dispatcher: a pure map from a physical key press
//! plus its modifier set to at most one message. The presentation layer
//! calls it once per logical press, so a shortcut yields a single message
//! whether or not the key repeats; no shortcut is ever suppressed, since the
//! controller has no blocking states.

use vstd::prelude::*;

use crate::controller::Message;

verus! {

/// The modifier keys held during a key press. `command` stands for the
/// platform's primary shortcut modifier (Ctrl, or Cmd on macOS).
#[derive(Clone, Copy, Debug, PartialEq, Eq, Structural)]
pub struct Modifiers {
    pub command: bool,
    pub shift: bool,
    pub alt: bool,
}

/// The message a key press dispatches: Cmd/Ctrl+N starts over, Cmd/Ctrl+O
/// opens the chooser, Cmd/Ctrl+S saves; everything else is no shortcut.
pub open spec fn spec_shortcut(key: char, m: Modifiers) -> Option<Message> {
    if m.command && (key == 'n' || key == 'N') {
        Some(Message::New)
    } else if m.command && (key == 'o' || key == 'O') {
        Some(Message::Open)
    } else if m.command && (key == 's' || key == 'S') {
        Some(Message::Save)
    } else {
        None
    }
}

/// Dispatch one logical key press.
pub fn shortcut_message(key: char, modifiers: Modifiers) -> (m: Option<Message>)
    ensures
        m == spec_shortcut(key, modifiers),
{
    if modifiers.command && (key == 'n' || key == 'N') {
        Some(Message::New)
    } else if modifiers.command && (key == 'o' || key == 'O') {
        Some(Message::Open)
    } else if modifiers.command && (key == 's' || key == 'S') {
        Some(Message::Save)
    } else {
        None
    }
}

} // verus!
