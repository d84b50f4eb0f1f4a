//! What a key does to the text of a field and to its cursor.
use vstd::prelude::*;
use vstd::string::*;

use ratatui::crossterm::event::{Event as E, KeyCode as C, KeyEvent, KeyModifiers as M};
use tui_input::Input;
use tui_input::backend::crossterm::to_input_request;

use crate::key::Key;
use crate::key::Key::{
    BackTab, Backspace, Char, Delete, Down, End, Enter, Esc, Home, Left, Right, Tab, Up,
};

verus! {

/// What `tui_input` makes of a field holding `text`, with the cursor before
/// the character at `cursor`, when `key` is pressed (with Control held when
/// `control`): the new text and cursor.
pub uninterp spec fn edited_text(text: Seq<char>, cursor: nat, key: Key, control: bool) -> (
    Seq<char>,
    nat,
);

/// Turns `key` into a terminal key event, asks
/// `tui_input::backend::crossterm::to_input_request` for the request it
/// makes, and applies that request with `Input::handle` to
/// `Input::new(text).with_cursor(cursor)`; a key that makes no request
/// changes nothing, and so does `Key::Ctrl` (callers hand such a character
/// over as `Key::Char` with `control`). Returns the input's `value` and
/// `cursor`. The input is a fresh one on each call, so it holds no text cut
/// by an earlier key for `Ctrl+y` to paste back. The contract names the
/// result and claims only that it is a function of the arguments.
#[verifier::external_body]
pub fn edit_text(text: &str, cursor: usize, key: Key, control: bool) -> (r: (String, usize))
    ensures
        (r.0@, r.1 as nat) == edited_text(text@, cursor as nat, key, control),
{
    let code = match key {
        Up => C::Up, Down => C::Down, Left => C::Left, Right => C::Right, Tab => C::Tab,
        BackTab => C::BackTab, Enter => C::Enter, Esc => C::Esc, Backspace => C::Backspace,
        Delete => C::Delete, Home => C::Home, End => C::End, Char(c) => C::Char(c), _ => C::Null,
    };
    let mut input = Input::new(text.into()).with_cursor(cursor);
    let m = if control { M::CONTROL } else { M::NONE };
    if let Some(r) = to_input_request(&E::Key(KeyEvent::new(code, m))) {
        input.handle(r);
    }
    (input.value().into(), input.cursor())
}

/// What `key` does to a field holding `text` with its cursor at `cursor`: a
/// character typed with Control is that character with the modifier, and a
/// key the forms do not know changes nothing.
pub open spec fn field_edit(text: Seq<char>, cursor: nat, key: Key) -> (Seq<char>, nat) {
    match key {
        Key::Ctrl(c) => edited_text(text, cursor, Key::Char(c), true),
        Key::Other => (text, cursor),
        _ => edited_text(text, cursor, key, false),
    }
}

/// The field `(n, nc)` is `(o, oc)` after `key`.
pub open spec fn typed(o: String, oc: usize, n: String, nc: usize, key: Key) -> bool {
    (n@, nc as nat) == field_edit(o@, oc as nat, key)
}

/// The field `(n, nc)` is `(o, oc)`, untouched.
pub open spec fn untouched(o: String, oc: usize, n: String, nc: usize) -> bool {
    n == o && nc == oc
}

/// Applies `key` to a field: its text and its cursor.
pub fn edit_field(text: &mut String, cursor: &mut usize, key: Key)
    ensures
        typed(*old(text), *old(cursor), *final(text), *final(cursor), key),
{
    match key {
        Key::Ctrl(c) => {
            let (t, k) = edit_text(text.as_str(), *cursor, Key::Char(c), true);
            *text = t;
            *cursor = k;
        },
        Key::Other => {},
        _ => {
            let (t, k) = edit_text(text.as_str(), *cursor, key, false);
            *text = t;
            *cursor = k;
        },
    }
}

/// Where the cursor of a field holding `text` stands when the field is
/// filled: after its last character.
pub fn end_of(text: &String) -> (r: usize)
    ensures
        r == text@.len(),
{
    text.as_str().unicode_len()
}

} // verus!
