//! The question asked before a VM creation form is dropped.
use vstd::prelude::*;

use crate::key::{Key, is_left, is_right};

verus! {

/// The answer highlighted: true to drop the form.
#[derive(Debug, Clone, Copy)]
pub struct CancelConfirmation {
    pub choice: bool,
}

impl CancelConfirmation {
    /// The question with "no" highlighted.
    pub fn new() -> (r: Self)
        ensures
            !r.choice,
    {
        CancelConfirmation { choice: false }
    }

    /// A side key flips the highlighted answer; Enter gives it.
    pub fn handle_key_events(&mut self, key: Key) -> (answer: Option<bool>)
        ensures
            final(self).choice == (old(self).choice != (is_left(key) || is_right(key))),
            answer == if key == Key::Enter {
                Some(old(self).choice)
            } else {
                None
            },
    {
        if key.left() || key.right() {
            self.choice = !self.choice;
            None
        } else if key == Key::Enter {
            Some(self.choice)
        } else {
            None
        }
    }
}

} // verus!
