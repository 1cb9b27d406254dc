//! The screen that shows a conversation.

use vstd::prelude::*;

verus! {

/// The conversation screen. It holds nothing yet.
#[derive(Clone, Copy, Debug, PartialEq, Eq, Structural)]
pub struct Conversation;

/// What the conversation screen can be told.
#[derive(Clone, Copy, Debug, PartialEq, Eq, Structural)]
pub enum Message {
    ConversationMessage,
}

impl Default for Conversation {
    fn default() -> (screen: Self)
        ensures
            screen == Conversation,
    {
        Self
    }
}

impl Conversation {
    /// Takes a message in. The screen has no state that a message could
    /// change.
    pub fn update(&self, _message: Message) {
    }
}

} // verus!
