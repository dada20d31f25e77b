//! A one-line text input for a new todo.
use vstd::prelude::*;

use crate::kinds::key::{Key, KeyCode};
use crate::text::{pop_char, push_char, trim, trim_spec};

verus! {

/// What a key press in the input asks for.
#[derive(Clone, Debug)]
pub enum InputAreaAction {
    /// The typed text is submitted.
    Confirm(String),
    /// Nothing to do.
    NoAction,
}

/// A one-line text input.
#[derive(Clone, Debug)]
pub struct InputArea {
    text: String,
}

impl InputArea {
    /// The typed text.
    pub closed spec fn text_spec(&self) -> Seq<char> {
        self.text@
    }

    /// An empty input.
    pub fn new() -> (a: Self)
        ensures
            a.text_spec() == Seq::<char>::empty(),
    {
        Self { text: String::new() }
    }

    /// The typed text.
    pub fn text(&self) -> (r: &str)
        ensures
            r@ == self.text_spec(),
    {
        self.text.as_str()
    }

    /// Handles a key press: Backspace deletes the last character, a character
    /// key types it, and Enter submits the text (and empties the input) unless
    /// it is blank.
    pub fn handle(&mut self, key: Key) -> (r: InputAreaAction)
        ensures
            match key.code {
                KeyCode::Backspace => final(self).text_spec() == (if old(self).text_spec().len() > 0 {
                    old(self).text_spec().drop_last()
                } else {
                    old(self).text_spec()
                }) && r is NoAction,
                KeyCode::Char(c) => final(self).text_spec() == old(self).text_spec().push(c)
                    && r is NoAction,
                KeyCode::Enter => if trim_spec(old(self).text_spec()).len() > 0 {
                    &&& final(self).text_spec() == Seq::<char>::empty()
                    &&& r matches InputAreaAction::Confirm(t) && t@ == old(self).text_spec()
                } else {
                    final(self).text_spec() == old(self).text_spec() && r is NoAction
                },
                _ => final(self).text_spec() == old(self).text_spec() && r is NoAction,
            },
    {
        match key.code {
            KeyCode::Backspace => {
                pop_char(&mut self.text);
            },
            KeyCode::Char(c) => {
                push_char(&mut self.text, c);
            },
            KeyCode::Enter => {
                if trim(self.text.as_str()).unicode_len() != 0 {
                    let text = self.text.clone();
                    self.text = String::new();
                    return InputAreaAction::Confirm(text);
                }
            },
            _ => {},
        }
        InputAreaAction::NoAction
    }
}

} // verus!
