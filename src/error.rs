//! The popup that reports a failure.
use vstd::prelude::*;
use crate::app::Action;
use crate::keys::Key;

verus! {

pub struct ErrorPopup {
    error_content: String,
}

impl View for ErrorPopup {
    type V = Seq<char>;

    closed spec fn view(&self) -> Seq<char> {
        self.error_content@
    }
}

impl ErrorPopup {
    pub fn new(error_content: String) -> (r: Self)
        ensures
            r@ == error_content@,
    {
        ErrorPopup { error_content }
    }

    /// The message shown.
    pub fn content(&self) -> (r: &String)
        ensures
            r@ == self@,
    {
        &self.error_content
    }

    /// Escape dismisses the popup; other keys do nothing.
    pub fn handle_key(&self, key: Key) -> (r: Option<Action>)
        ensures
            r == (if key == Key::Esc { Some(Action::ClosePopup) } else { None }),
    {
        match key {
            Key::Esc => Some(Action::ClosePopup),
            _ => None,
        }
    }
}

} // verus!
