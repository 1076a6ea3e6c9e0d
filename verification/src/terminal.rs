//! Key events of the terminal, read as the editor's own key events.

use crate::key::{Key, KeyInput};
use crossterm::event::{KeyCode, KeyEvent, KeyModifiers};
use vstd::prelude::*;

verus! {

/// `crossterm::event::KeyEvent`, carried through as an opaque value.
#[verifier::external_type_specification]
#[verifier::external_body]
pub struct ExKeyEvent(crossterm::event::KeyEvent);

/// The key and the control flag that a terminal key event stands for.
pub uninterp spec fn key_input_of(event: KeyEvent) -> KeyInput;

/// Reads the `code` and `modifiers` fields of a `crossterm::event::KeyEvent`:
/// the key code variant by variant, every code that the editor has no use
/// for as `Key::Other`, and `KeyModifiers::contains` for the control flag.
/// The contract claims no more than that the result depends on the event
/// alone.
#[verifier::external_body]
pub(crate) fn read_key_event(event: &KeyEvent) -> (input: KeyInput)
    ensures
        input == key_input_of(*event),
{
    let key = match event.code {
        KeyCode::Char(c) => Key::Char(c),
        KeyCode::Left => Key::Left,
        KeyCode::Right => Key::Right,
        KeyCode::Up => Key::Up,
        KeyCode::Down => Key::Down,
        KeyCode::Enter => Key::Enter,
        KeyCode::Backspace => Key::Backspace,
        KeyCode::Esc => Key::Esc,
        _ => Key::Other,
    };
    KeyInput { key, ctrl: event.modifiers.contains(KeyModifiers::CONTROL) }
}

} // verus!
