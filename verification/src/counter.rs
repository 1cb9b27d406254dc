//! A number that is counted up and down.

use vstd::prelude::*;

verus! {

/// The counter's state.
#[derive(Debug)]
pub struct Counter {
    pub value: i64,
}

/// What the counter can be told.
#[derive(Clone, Copy, Debug, PartialEq, Eq, Structural)]
pub enum Message {
    Increment,
    Decrement,
}

impl Default for Counter {
    /// A counter at zero.
    fn default() -> (counter: Self)
        ensures
            counter.value == 0,
    {
        Counter { value: 0 }
    }
}

/// The value after a message, as a number without bounds.
pub open spec fn counted(value: int, message: Message) -> int {
    match message {
        Message::Increment => value + 1,
        Message::Decrement => value - 1,
    }
}

impl Counter {
    /// Counts one up or one down.
    pub fn update(&mut self, message: Message)
        requires
            i64::MIN <= counted(old(self).value as int, message) <= i64::MAX,
        ensures
            final(self).value == counted(old(self).value as int, message),
    {
        match message {
            Message::Increment => {
                self.value = self.value + 1;
            },
            Message::Decrement => {
                self.value = self.value - 1;
            },
        }
    }
}

} // verus!
