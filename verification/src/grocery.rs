//! A grocery list: items, and the text being typed for the next one.

use vstd::prelude::*;

verus! {

/// The list's state.
#[derive(Debug)]
pub struct GroceryList {
    pub grocery_items: Vec<String>,
    pub input_value: String,
}

/// What the list can be told.
#[derive(Clone, Debug)]
pub enum Message {
    /// The typed text is now this.
    InputValue(String),
    /// The typed text is to become an item.
    Submitted,
    /// The item at the index is to go.
    DeleteItem(usize),
}

impl GroceryList {
    /// A list of eggs, milk and flour, with nothing typed.
    pub fn new() -> (list: Self)
        ensures
            list.grocery_items@.len() == 3,
            list.grocery_items@[0]@ == "Eggs"@,
            list.grocery_items@[1]@ == "Milk"@,
            list.grocery_items@[2]@ == "Flour"@,
            list.input_value@ == Seq::<char>::empty(),
    {
        let mut grocery_items: Vec<String> = Vec::new();
        grocery_items.push("Eggs".to_owned());
        grocery_items.push("Milk".to_owned());
        grocery_items.push("Flour".to_owned());
        Self { grocery_items, input_value: String::new() }
    }

    /// Whether a message can be carried out: an item that is to go must be
    /// there.
    pub open spec fn accepts(self, message: Message) -> bool {
        match message {
            Message::DeleteItem(item) => item < self.grocery_items@.len(),
            _ => true,
        }
    }

    /// How the list stands after a message: the typed text is replaced; or
    /// it becomes the last item and nothing is typed any more; or the item
    /// at the index goes and the others close up.
    pub open spec fn update_outcome(self, message: Message, post: GroceryList) -> bool {
        match message {
            Message::InputValue(value) => {
                &&& post.input_value == value
                &&& post.grocery_items == self.grocery_items
            },
            Message::Submitted => {
                &&& post.input_value@ == Seq::<char>::empty()
                &&& post.grocery_items@ == self.grocery_items@.push(self.input_value)
            },
            Message::DeleteItem(item) => {
                &&& post.input_value == self.input_value
                &&& post.grocery_items@ == self.grocery_items@.remove(item as int)
            },
        }
    }

    /// Carries out a message.
    pub fn update(&mut self, message: Message)
        requires
            old(self).accepts(message),
        ensures
            old(self).update_outcome(message, *final(self)),
    {
        match message {
            Message::InputValue(value) => {
                self.input_value = value;
            },
            Message::Submitted => {
                let mut input_value = String::new();
                std::mem::swap(&mut self.input_value, &mut input_value);
                self.grocery_items.push(input_value);
            },
            Message::DeleteItem(item) => {
                let _ = self.grocery_items.remove(item);
            },
        }
    }
}

} // verus!
