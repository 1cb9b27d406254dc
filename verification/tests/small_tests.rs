use playground_state::counter::{Counter, Message as CounterMessage};
use playground_state::grocery::{GroceryList, Message as GroceryMessage};
use playground_state::navigation::contacts::{Contacts, Message as ContactsMessage};
use playground_state::navigation::conversation::{Conversation, Message as ConversationMessage};
use playground_state::navigation::{Main, Message, Screen};

#[test]
fn counter_counts_up_and_down() {
    let mut counter = Counter::default();
    assert_eq!(counter.value, 0);
    counter.update(CounterMessage::Increment);
    counter.update(CounterMessage::Increment);
    assert_eq!(counter.value, 2);
    counter.update(CounterMessage::Decrement);
    counter.update(CounterMessage::Decrement);
    counter.update(CounterMessage::Decrement);
    assert_eq!(counter.value, -1);
}

#[test]
fn counter_reaches_both_ends() {
    let mut counter = Counter { value: i64::MAX - 1 };
    counter.update(CounterMessage::Increment);
    assert_eq!(counter.value, i64::MAX);
    let mut counter = Counter { value: i64::MIN + 1 };
    counter.update(CounterMessage::Decrement);
    assert_eq!(counter.value, i64::MIN);
}

#[test]
fn grocery_list_starts_with_three_items() {
    let list = GroceryList::new();
    assert_eq!(list.grocery_items, vec!["Eggs", "Milk", "Flour"]);
    assert_eq!(list.input_value, "");
}

#[test]
fn grocery_input_is_kept_until_submitted() {
    let mut list = GroceryList::new();
    list.update(GroceryMessage::InputValue("Bu".to_string()));
    list.update(GroceryMessage::InputValue("Butter".to_string()));
    assert_eq!(list.input_value, "Butter");
    assert_eq!(list.grocery_items.len(), 3);
    list.update(GroceryMessage::Submitted);
    assert_eq!(list.grocery_items, vec!["Eggs", "Milk", "Flour", "Butter"]);
    assert_eq!(list.input_value, "");
}

#[test]
fn grocery_submits_empty_input_too() {
    let mut list = GroceryList::new();
    list.update(GroceryMessage::Submitted);
    assert_eq!(list.grocery_items, vec!["Eggs", "Milk", "Flour", ""]);
}

#[test]
fn grocery_delete_closes_the_gap() {
    let mut list = GroceryList::new();
    list.update(GroceryMessage::InputValue("Tea".to_string()));
    list.update(GroceryMessage::DeleteItem(1));
    assert_eq!(list.grocery_items, vec!["Eggs", "Flour"]);
    assert_eq!(list.input_value, "Tea");
    list.update(GroceryMessage::DeleteItem(1));
    list.update(GroceryMessage::DeleteItem(0));
    assert!(list.grocery_items.is_empty());
}

#[test]
fn window_starts_on_contacts() {
    let window = Main::default();
    assert_eq!(window.screen, Screen::Contacts(Contacts));
    assert_eq!(Screen::default(), Screen::Contacts(Contacts::default()));
}

#[test]
fn window_navigates() {
    let mut window = Main::default();
    window.update(Main::show_conversation());
    assert_eq!(window.screen, Screen::Conversation(Conversation));
    assert_eq!(
        window.screen_message(),
        Message::Navigate(Screen::Conversation(Conversation::default()))
    );
    window.update(Main::show_contacts());
    assert_eq!(window.screen, Screen::Contacts(Contacts));
    window.update(Message::Navigate(Screen::Contacts(Contacts)));
    assert_eq!(window.screen, Screen::Contacts(Contacts));
}

#[test]
fn screen_messages_keep_the_screen() {
    let mut window = Main::default();
    window.update(Message::Contacts(ContactsMessage::ContactMessage));
    assert_eq!(window.screen, Screen::Contacts(Contacts));
    window.update(Message::Conversation(ConversationMessage::ConversationMessage));
    assert_eq!(window.screen, Screen::Contacts(Contacts));
    window.update(Main::show_conversation());
    window.update(Message::Contacts(ContactsMessage::ContactMessage));
    window.update(Message::Conversation(ConversationMessage::ConversationMessage));
    assert_eq!(window.screen, Screen::Conversation(Conversation));
    Contacts.update(ContactsMessage::ContactMessage);
    Conversation.update(ConversationMessage::ConversationMessage);
}
