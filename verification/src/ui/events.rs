//! Key presses as the browser sees them, and how it sorts them into groups.

use vstd::prelude::*;

verus! {

/// The key of a key press.
#[derive(Debug, Clone, Copy, PartialEq, Eq, Structural)]
pub enum KeyCode {
    Backspace,
    Enter,
    Left,
    Right,
    Up,
    Down,
    Home,
    End,
    PageUp,
    PageDown,
    Tab,
    BackTab,
    Delete,
    Insert,
    /// A function key, by its number.
    F(u8),
    /// A character key.
    Char(char),
    Null,
    Esc,
    CapsLock,
    ScrollLock,
    NumLock,
    PrintScreen,
    Pause,
    Menu,
    KeypadBegin,
    /// A media key.
    Media,
    /// A modifier key pressed alone.
    Modifier,
}

/// One key press: the key, and whether Control was held with it.
#[derive(Debug, Clone, Copy, PartialEq, Eq, Structural)]
pub struct KeyEvent {
    pub code: KeyCode,
    pub control: bool,
}

/// What the terminal reports.
#[derive(Debug, Clone, Copy, PartialEq, Eq, Structural)]
pub enum Event {
    FocusGained,
    FocusLost,
    /// A key press.
    Key(KeyEvent),
    Mouse,
    Paste,
    /// The terminal has a new size, in columns and rows.
    Resize(u16, u16),
}

/// Sorts key presses into the groups the browser reacts to.
pub struct EventHandler;

impl EventHandler {
    /// The keys the browser reacts to at all.
    pub open spec fn handled(code: KeyCode) -> bool {
        code is Up || code is Down || code is Left || code is Right || code is Enter || code is Esc
            || code is Backspace || code is Char || code is Tab || code is BackTab
    }

    /// True for the keys the browser reacts to: arrows, Enter, Esc,
    /// Backspace, Tab, BackTab and every character.
    pub fn should_handle_key(key: KeyEvent) -> (r: bool)
        ensures
            r == Self::handled(key.code),
    {
        match key.code {
            KeyCode::Up | KeyCode::Down | KeyCode::Left | KeyCode::Right => true,
            KeyCode::Enter | KeyCode::Esc | KeyCode::Backspace => true,
            KeyCode::Char(_) | KeyCode::Tab | KeyCode::BackTab => true,
            _ => false,
        }
    }

    /// True for the four arrow keys.
    pub fn is_navigation_key(key: &KeyEvent) -> (r: bool)
        ensures
            r == (key.code is Up || key.code is Down || key.code is Left || key.code is Right),
    {
        match key.code {
            KeyCode::Up | KeyCode::Down | KeyCode::Left | KeyCode::Right => true,
            _ => false,
        }
    }

    /// True for Enter, the space bar and a carriage return.
    pub fn is_action_key(key: &KeyEvent) -> (r: bool)
        ensures
            r == (key.code == KeyCode::Enter || key.code == KeyCode::Char(' ') || key.code
                == KeyCode::Char('\r')),
    {
        match key.code {
            KeyCode::Enter => true,
            KeyCode::Char(c) => c == ' ' || c == '\r',
            _ => false,
        }
    }

    /// True for `q` and `Q`.
    pub fn is_quit_key(key: &KeyEvent) -> (r: bool)
        ensures
            r == (key.code == KeyCode::Char('q') || key.code == KeyCode::Char('Q')),
    {
        match key.code {
            KeyCode::Char(c) => c == 'q' || c == 'Q',
            _ => false,
        }
    }

    /// True for `/`, which starts a search.
    pub fn is_search_trigger(key: &KeyEvent) -> (r: bool)
        ensures
            r == (key.code == KeyCode::Char('/')),
    {
        match key.code {
            KeyCode::Char(c) => c == '/',
            _ => false,
        }
    }

    /// True for Esc, `h` and the left arrow.
    pub fn is_back_key(key: &KeyEvent) -> (r: bool)
        ensures
            r == (key.code == KeyCode::Esc || key.code == KeyCode::Char('h') || key.code
                == KeyCode::Left),
    {
        match key.code {
            KeyCode::Esc | KeyCode::Left => true,
            KeyCode::Char(c) => c == 'h',
            _ => false,
        }
    }

    /// The character of a character key.
    pub fn get_char(key: KeyEvent) -> (r: Option<char>)
        ensures
            r == (match key.code {
                KeyCode::Char(c) => Some(c),
                _ => None,
            }),
    {
        match key.code {
            KeyCode::Char(c) => Some(c),
            _ => None,
        }
    }
}

} // verus!
