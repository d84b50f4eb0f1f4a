//! The keys the forms react to.
use vstd::prelude::*;

verus! {

/// A key press, as the forms see it.
#[derive(Debug, Clone, Copy, PartialEq, Eq, Structural)]
pub enum Key {
    Up,
    Down,
    Left,
    Right,
    Tab,
    BackTab,
    Enter,
    Esc,
    Char(char),
    Backspace,
    Delete,
    Home,
    End,
    /// A character typed with Control held.
    Ctrl(char),
    /// Any other key.
    Other,
}

/// `Down` or `j`.
pub open spec fn is_down(k: Key) -> bool {
    k == Key::Down || k == Key::Char('j')
}

/// `Up` or `k`.
pub open spec fn is_up(k: Key) -> bool {
    k == Key::Up || k == Key::Char('k')
}

/// `Left` or `h`.
pub open spec fn is_left(k: Key) -> bool {
    k == Key::Left || k == Key::Char('h')
}

/// `Right` or `l`.
pub open spec fn is_right(k: Key) -> bool {
    k == Key::Right || k == Key::Char('l')
}

impl Key {
    /// `Down` or `j`.
    pub fn down(&self) -> (r: bool)
        ensures
            r == is_down(*self),
    {
        match self {
            Key::Down => true,
            Key::Char(c) => *c == 'j',
            _ => false,
        }
    }

    /// `Up` or `k`.
    pub fn up(&self) -> (r: bool)
        ensures
            r == is_up(*self),
    {
        match self {
            Key::Up => true,
            Key::Char(c) => *c == 'k',
            _ => false,
        }
    }

    /// `Left` or `h`.
    pub fn left(&self) -> (r: bool)
        ensures
            r == is_left(*self),
    {
        match self {
            Key::Left => true,
            Key::Char(c) => *c == 'h',
            _ => false,
        }
    }

    /// `Right` or `l`.
    pub fn right(&self) -> (r: bool)
        ensures
            r == is_right(*self),
    {
        match self {
            Key::Right => true,
            Key::Char(c) => *c == 'l',
            _ => false,
        }
    }
}

} // verus!
