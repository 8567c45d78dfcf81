//! Names for keys, and telling key presses from other events.

use vstd::prelude::*;
use vstd::string::*;
use crate::text::{decimal, decimal_string, push_char};
use crate::ui::events::{Event, KeyCode, KeyEvent};

verus! {

/// The name of a key, as a log shows it.
pub open spec fn key_name(code: KeyCode) -> Seq<char> {
    match code {
        KeyCode::Char(c) => "Char('"@ + seq![c] + "')"@,
        KeyCode::Up => "Up"@,
        KeyCode::Down => "Down"@,
        KeyCode::Left => "Left"@,
        KeyCode::Right => "Right"@,
        KeyCode::Enter => "Enter"@,
        KeyCode::Esc => "Escape"@,
        KeyCode::Backspace => "Backspace"@,
        KeyCode::Tab => "Tab"@,
        KeyCode::BackTab => "BackTab"@,
        KeyCode::Delete => "Delete"@,
        KeyCode::Home => "Home"@,
        KeyCode::End => "End"@,
        KeyCode::PageUp => "PageUp"@,
        KeyCode::PageDown => "PageDown"@,
        KeyCode::F(n) => "F"@ + decimal(n as nat),
        KeyCode::Null => "Null"@,
        KeyCode::CapsLock => "CapsLock"@,
        KeyCode::ScrollLock => "ScrollLock"@,
        KeyCode::NumLock => "NumLock"@,
        KeyCode::PrintScreen => "PrintScreen"@,
        KeyCode::Pause => "Pause"@,
        KeyCode::Menu => "Menu"@,
        KeyCode::KeypadBegin => "KeypadBegin"@,
        KeyCode::Media => "Media"@,
        KeyCode::Modifier => "Modifier"@,
        KeyCode::Insert => "Insert"@,
    }
}

/// Helpers around input events.
pub struct EventUtils;

impl EventUtils {
    /// The name of the key of a key press.
    pub fn key_to_string(key: &KeyEvent) -> (r: String)
        ensures
            r@ == key_name(key.code),
    {
        match key.code {
            KeyCode::Char(c) => {
                let mut s = String::from_str("Char('");
                push_char(&mut s, c);
                assert(s@ =~= "Char('"@ + seq![c]);
                s.concat("')")
            },
            KeyCode::Up => String::from_str("Up"),
            KeyCode::Down => String::from_str("Down"),
            KeyCode::Left => String::from_str("Left"),
            KeyCode::Right => String::from_str("Right"),
            KeyCode::Enter => String::from_str("Enter"),
            KeyCode::Esc => String::from_str("Escape"),
            KeyCode::Backspace => String::from_str("Backspace"),
            KeyCode::Tab => String::from_str("Tab"),
            KeyCode::BackTab => String::from_str("BackTab"),
            KeyCode::Delete => String::from_str("Delete"),
            KeyCode::Home => String::from_str("Home"),
            KeyCode::End => String::from_str("End"),
            KeyCode::PageUp => String::from_str("PageUp"),
            KeyCode::PageDown => String::from_str("PageDown"),
            KeyCode::F(n) => {
                let digits = decimal_string(n as u64);
                String::from_str("F").concat(digits.as_str())
            },
            KeyCode::Null => String::from_str("Null"),
            KeyCode::CapsLock => String::from_str("CapsLock"),
            KeyCode::ScrollLock => String::from_str("ScrollLock"),
            KeyCode::NumLock => String::from_str("NumLock"),
            KeyCode::PrintScreen => String::from_str("PrintScreen"),
            KeyCode::Pause => String::from_str("Pause"),
            KeyCode::Menu => String::from_str("Menu"),
            KeyCode::KeypadBegin => String::from_str("KeypadBegin"),
            KeyCode::Media => String::from_str("Media"),
            KeyCode::Modifier => String::from_str("Modifier"),
            KeyCode::Insert => String::from_str("Insert"),
        }
    }

    /// Whether an event is a key press.
    pub fn is_key_event(event: &Event) -> (r: bool)
        ensures
            r == (*event is Key),
    {
        match event {
            Event::Key(_) => true,
            _ => false,
        }
    }

    /// The key press of an event, if it is one.
    pub fn get_key_event(event: &Event) -> (r: Option<&KeyEvent>)
        ensures
            match *event {
                Event::Key(key) => r == Some(&key),
                _ => r is None,
            },
    {
        match event {
            Event::Key(key) => Some(key),
            _ => None,
        }
    }
}

} // verus!
