//! A window that shows one of two screens and moves between them.

use vstd::prelude::*;

pub mod contacts;
pub mod conversation;

verus! {

/// The screen that the window shows.
#[derive(Clone, Copy, Debug, PartialEq, Eq, Structural)]
pub enum Screen {
    Contacts(contacts::Contacts),
    Conversation(conversation::Conversation),
}

impl Default for Screen {
    /// The contacts screen.
    fn default() -> (screen: Self)
        ensures
            screen == Screen::Contacts(contacts::Contacts),
    {
        Self::Contacts(contacts::Contacts::default())
    }
}

/// What the window can be told.
#[derive(Clone, Copy, Debug, PartialEq, Eq, Structural)]
pub enum Message {
    /// A message for the contacts screen.
    Contacts(contacts::Message),
    /// A message for the conversation screen.
    Conversation(conversation::Message),
    /// Show the given screen.
    Navigate(Screen),
}

/// The window's state.
#[derive(Debug)]
pub struct Main {
    pub screen: Screen,
}

impl Default for Main {
    /// A window that shows the contacts screen.
    fn default() -> (window: Self)
        ensures
            window.screen == Screen::Contacts(contacts::Contacts),
    {
        Self { screen: Screen::default() }
    }
}

/// The screen shown after a message: the one navigated to, or the one
/// shown before.
pub open spec fn shown_after(screen: Screen, message: Message) -> Screen {
    match message {
        Message::Navigate(target) => target,
        _ => screen,
    }
}

impl Main {
    /// Takes a message in: navigates, or hands the message to the screen it
    /// is for if that screen is shown.
    pub fn update(&mut self, message: Message)
        ensures
            final(self).screen == shown_after(old(self).screen, message),
    {
        match message {
            Message::Navigate(screen) => {
                self.screen = screen;
            },
            Message::Contacts(msg) => {
                if let Screen::Contacts(contacts) = &self.screen {
                    contacts.update(msg);
                }
            },
            Message::Conversation(msg) => {
                if let Screen::Conversation(conversation) = &self.screen {
                    conversation.update(msg);
                }
            },
        }
    }

    /// The request behind the button that shows the contacts.
    pub fn show_contacts() -> (message: Message)
        ensures
            message == Message::Navigate(Screen::Contacts(contacts::Contacts)),
    {
        Message::Navigate(Screen::Contacts(contacts::Contacts::default()))
    }

    /// The request behind the button that shows the conversation.
    pub fn show_conversation() -> (message: Message)
        ensures
            message == Message::Navigate(Screen::Conversation(conversation::Conversation)),
    {
        Message::Navigate(Screen::Conversation(conversation::Conversation::default()))
    }

    /// What a message of the shown screen becomes for the window: a request
    /// to show the screen that is shown.
    pub fn screen_message(&self) -> (message: Message)
        ensures
            message == Message::Navigate(self.screen),
    {
        Message::Navigate(self.screen)
    }
}

} // verus!
