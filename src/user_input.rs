use vstd::prelude::*;
use crate::text::{chars_of, string_from_chars};

verus! {

/// Whether keys browse the list or edit the search query.
#[derive(Debug, Clone, Copy, PartialEq, Eq, Structural)]
pub enum InputMode {
    Normal,
    Editing,
}

/// The search query being typed, with the text cursor as a character index.
#[derive(Debug)]
pub struct UserInput {
    pub input: String,
    pub character_index: usize,
}

/// The text cursor kept within the query of length `len`.
pub open spec fn clamped(index: usize, len: nat) -> nat {
    if index <= len { index as nat } else { len }
}

impl UserInput {
    pub fn new() -> (r: UserInput)
        ensures
            r.input@.len() == 0,
            r.character_index == 0,
    {
        UserInput { input: String::new(), character_index: 0 }
    }

    /// Inserts `c` at the text cursor and moves the cursor past it.
    pub fn enter_char(&mut self, c: char)
        ensures
            final(self).input@ == old(self).input@.insert(
                clamped(old(self).character_index, old(self).input@.len()) as int,
                c,
            ),
            final(self).character_index == clamped(old(self).character_index, old(self).input@.len()) + 1,
    {
        let mut cs = chars_of(self.input.as_str());
        let i = if self.character_index <= cs.len() {
            self.character_index
        } else {
            cs.len()
        };
        cs.insert(i, c);
        let n = cs.len();
        assert(i < n);
        self.input = string_from_chars(&cs);
        self.character_index = i + 1;
    }

    /// Removes the character before the text cursor, if there is one, and
    /// moves the cursor back over it.
    pub fn delete_char(&mut self)
        ensures
            ({
                let i = clamped(old(self).character_index, old(self).input@.len());
                if i == 0 {
                    final(self).input@ == old(self).input@ && final(self).character_index == 0
                } else {
                    final(self).input@ == old(self).input@.remove(i - 1)
                        && final(self).character_index == i - 1
                }
            }),
    {
        let mut cs = chars_of(self.input.as_str());
        let i = if self.character_index <= cs.len() {
            self.character_index
        } else {
            cs.len()
        };
        if i == 0 {
            self.character_index = 0;
        } else {
            cs.remove(i - 1);
            self.input = string_from_chars(&cs);
            self.character_index = i - 1;
        }
    }

    /// Moves the text cursor one character to the left, stopping at the start.
    pub fn move_cursor_left(&mut self)
        ensures
            final(self).input == old(self).input,
            final(self).character_index == ({
                let i = clamped(old(self).character_index, old(self).input@.len());
                if i == 0 { 0 } else { i - 1 }
            }),
    {
        let n = chars_of(self.input.as_str()).len();
        let i = if self.character_index <= n {
            self.character_index
        } else {
            n
        };
        self.character_index = if i == 0 {
            0
        } else {
            i - 1
        };
    }

    /// Moves the text cursor one character to the right, stopping at the end.
    pub fn move_cursor_right(&mut self)
        ensures
            final(self).input == old(self).input,
            final(self).character_index == ({
                let i = clamped(old(self).character_index, old(self).input@.len());
                if i < old(self).input@.len() { i + 1 } else { i }
            }),
    {
        let n = chars_of(self.input.as_str()).len();
        self.character_index = if self.character_index < n {
            self.character_index + 1
        } else {
            n
        };
    }
}

} // verus!
