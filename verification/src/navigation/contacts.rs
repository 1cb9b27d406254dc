//! The screen that lists contacts.

use vstd::prelude::*;

verus! {

/// The contacts screen. It holds nothing yet.
#[derive(Clone, Copy, Debug, PartialEq, Eq, Structural)]
pub struct Contacts;

/// What the contacts screen can be told.
#[derive(Clone, Copy, Debug, PartialEq, Eq, Structural)]
pub enum Message {
    ContactMessage,
}

impl Default for Contacts {
    fn default() -> (screen: Self)
        ensures
            screen == Contacts,
    {
        Self
    }
}

impl Contacts {
    /// Takes a message in. The screen has no state that a message could
    /// change.
    pub fn update(&self, _message: Message) {
    }
}

} // verus!
