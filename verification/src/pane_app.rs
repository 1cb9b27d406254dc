//! A window of panes that can be split, closed, pinned, maximized and
//! walked through with the keyboard, each pane showing one kind of content.

use crate::panes::{
    adjacent_pane, fresh_pane, grid_maximized, grid_panes, grid_split_into, holds_first,
    refocused, same_pane, split_made, Axis, DefinedPane, Direction, DragEvent, PaneBoard,
};
use iced::widget::pane_grid::{Pane, ResizeEvent, State};
use vstd::prelude::*;

verus! {

/// What a pane shows.
#[derive(Clone, Copy, Debug, PartialEq, Eq, Structural)]
pub enum PaneContent {
    Text,
    Buttons,
    Image,
}

/// What the window is asked to do.
#[derive(Clone, Copy, Debug)]
pub enum Message {
    Split(Axis, Pane),
    SplitFocused(Axis),
    FocusAdjacent(Direction),
    Clicked(Pane),
    Dragged(DragEvent),
    Resized(ResizeEvent),
    Maximize(Pane),
    Restore,
    Close(Pane),
    CloseFocused,
    TogglePin(Pane),
}

/// A named key, as far as the hotkeys tell them apart.
#[derive(Clone, Copy, Debug, PartialEq, Eq, Structural)]
pub enum NamedKey {
    ArrowUp,
    ArrowDown,
    ArrowLeft,
    ArrowRight,
    Other,
}

/// A key of the keyboard.
#[derive(Debug)]
pub enum Key {
    /// A key with a name.
    Named(NamedKey),
    /// A key that writes the given text.
    Character(String),
    /// A key that is neither.
    Unidentified,
}

/// The window's state: the panes, and which content each pane shows.
#[derive(Debug)]
pub struct Example {
    pub grid: PaneBoard,
    pub pane_contents: Vec<(Pane, PaneContent)>,
}

/// The content listed for `pane` in `contents`: that of the first entry for
/// the pane, or text where no entry names it.
pub open spec fn listed_content(contents: Seq<(Pane, PaneContent)>, pane: Pane) -> PaneContent
    decreases contents.len(),
{
    if contents.len() == 0 {
        PaneContent::Text
    } else if contents[0].0 == pane {
        contents[0].1
    } else {
        listed_content(contents.skip(1), pane)
    }
}

/// The direction that an arrow key stands for.
pub open spec fn arrow_direction(key: NamedKey) -> Option<Direction> {
    match key {
        NamedKey::ArrowUp => Some(Direction::Up),
        NamedKey::ArrowDown => Some(Direction::Down),
        NamedKey::ArrowLeft => Some(Direction::Left),
        NamedKey::ArrowRight => Some(Direction::Right),
        NamedKey::Other => None,
    }
}

/// The request that a key stands for: `v` and `h` split the pane in focus
/// upright and level, `w` closes it, an arrow moves the focus; no other key
/// asks for anything.
pub open spec fn hotkey(key: Key) -> Option<Message> {
    match key {
        Key::Character(text) => if text@ == seq!['v'] {
            Some(Message::SplitFocused(Axis::Vertical))
        } else if text@ == seq!['h'] {
            Some(Message::SplitFocused(Axis::Horizontal))
        } else if text@ == seq!['w'] {
            Some(Message::CloseFocused)
        } else {
            None
        },
        Key::Named(named) => match arrow_direction(named) {
            Some(direction) => Some(Message::FocusAdjacent(direction)),
            None => None,
        },
        Key::Unidentified => None,
    }
}

/// Whether `text` is the one character `c`.
fn is_character(text: &str, c: char) -> (is: bool)
    ensures
        is == (text@ == seq![c]),
{
    if text.unicode_len() == 1 {
        let first = text.get_char(0);
        assert(first == c ==> text@ =~= seq![c]);
        first == c
    } else {
        false
    }
}

/// The request that a key stands for.
pub fn handle_hotkey(key: &Key) -> (message: Option<Message>)
    ensures
        message == hotkey(*key),
{
    match key {
        Key::Character(text) => {
            if is_character(text.as_str(), 'v') {
                Some(Message::SplitFocused(Axis::Vertical))
            } else if is_character(text.as_str(), 'h') {
                Some(Message::SplitFocused(Axis::Horizontal))
            } else if is_character(text.as_str(), 'w') {
                Some(Message::CloseFocused)
            } else {
                None
            }
        },
        Key::Named(named) => {
            let direction = match named {
                NamedKey::ArrowUp => Some(Direction::Up),
                NamedKey::ArrowDown => Some(Direction::Down),
                NamedKey::ArrowLeft => Some(Direction::Left),
                NamedKey::ArrowRight => Some(Direction::Right),
                NamedKey::Other => None,
            };
            match direction {
                Some(direction) => Some(Message::FocusAdjacent(direction)),
                None => None,
            }
        },
        Key::Unidentified => None,
    }
}

/// The request that a key press stands for: that of the key while the
/// command key is held, none otherwise.
pub fn on_key_press(key: &Key, command: bool) -> (message: Option<Message>)
    ensures
        message == if command {
            hotkey(*key)
        } else {
            None
        },
{
    if !command {
        return None;
    }
    handle_hotkey(key)
}

/// Whether a pane offers to be closed: it is not the only one and it is not
/// pinned.
pub fn can_close(total_panes: usize, is_pinned: bool) -> (offered: bool)
    ensures
        offered == (total_panes > 1 && !is_pinned),
{
    total_panes > 1 && !is_pinned
}

/// The panes of a newly opened window: the first pane, numbered 0, then the
/// second and the third, numbered 1 and 2, as far as the grid made them.
pub open spec fn opening_panes(first: Pane, second: Option<Pane>, third: Option<Pane>) -> Map<
    Pane,
    DefinedPane,
> {
    let one = Map::<Pane, DefinedPane>::empty().insert(first, fresh_pane(0));
    let two = match second {
        Some(pane) => one.insert(pane, fresh_pane(1)),
        None => one,
    };
    match third {
        Some(pane) => two.insert(pane, fresh_pane(2)),
        None => two,
    }
}

/// The contents of a newly opened window: text in the first pane, buttons
/// in the second and an image in the third, as far as the grid made them.
pub open spec fn opening_contents(first: Pane, second: Option<Pane>, third: Option<Pane>) -> Seq<
    (Pane, PaneContent),
> {
    let one = seq![(first, PaneContent::Text)];
    let two = match second {
        Some(pane) => one.push((pane, PaneContent::Buttons)),
        None => one,
    };
    match third {
        Some(pane) => two.push((pane, PaneContent::Image)),
        None => two,
    }
}

impl Default for Example {
    /// A newly opened window.
    fn default() -> (made: Self)
        ensures
            exists|start: State<DefinedPane>, first: Pane| #[trigger] made.opened_from(start, first),
    {
        Example::new()
    }
}

impl Example {
    /// The window was opened from a grid that held `first` alone: `first`
    /// was split upright, and the pane that this made, if it made one, was
    /// split level. The grid is the one that these splits leave; the panes
    /// made are numbered 1 and 2 and listed with their contents; nothing is
    /// in focus or maximized, and three panes count as made.
    pub open spec fn opened_from(self, start: State<DefinedPane>, first: Pane) -> bool {
        let second = split_made(start, first);
        let halved = grid_split_into(start, Axis::Vertical, first, fresh_pane(1));
        let third = match second {
            Some(right) => split_made(halved, right),
            None => None,
        };
        &&& holds_first(start, first)
        &&& grid_maximized(start) is None
        &&& self.grid.panes == match second {
            Some(right) => grid_split_into(halved, Axis::Horizontal, right, fresh_pane(2)),
            None => halved,
        }
        &&& grid_panes(self.grid.panes) == opening_panes(first, second, third)
        &&& grid_maximized(self.grid.panes) is None
        &&& self.grid.panes_created == 3
        &&& self.grid.focus is None
        &&& self.pane_contents@ == opening_contents(first, second, third)
    }

    /// Opens a window: one pane, split upright, and its right half split
    /// level.
    pub fn new() -> (made: Self)
        ensures
            exists|start: State<DefinedPane>, first: Pane| #[trigger] made.opened_from(start, first),
    {
        let (mut grid, first) = PaneBoard::new();
        let ghost start = grid.panes;
        let mut pane_contents: Vec<(Pane, PaneContent)> = Vec::new();
        pane_contents.push((first, PaneContent::Text));
        // The first pane took number 0; the two splits take 1 and 2.
        grid.panes_created = 1;
        let second = grid.split(Axis::Vertical, first);
        let mut third: Option<Pane> = None;
        if let Some(right) = second {
            pane_contents.push((right, PaneContent::Buttons));
            third = grid.split(Axis::Horizontal, right);
            if let Some(lower) = third {
                pane_contents.push((lower, PaneContent::Image));
            }
        }
        grid.panes_created = 3;
        grid.focus = None;
        let made = Example { grid, pane_contents };
        proof {
            assert(made.pane_contents@ =~= opening_contents(first, second, third));
            assert(made.opened_from(start, first));
        }
        made
    }

    /// How the window stands after a request, whatever the grid answered.
    pub open spec fn update_outcome(self, message: Message, post: Example) -> bool {
        &&& post.pane_contents == self.pane_contents
        &&& match message {
            Message::Split(axis, pane) => self.grid.split_outcome(axis, pane, post.grid),
            Message::SplitFocused(axis) => match self.grid.focus {
                Some(pane) => self.grid.split_outcome(axis, pane, post.grid),
                None => post.grid == self.grid,
            },
            Message::FocusAdjacent(toward) => {
                &&& post.grid.panes == self.grid.panes
                &&& post.grid.panes_created == self.grid.panes_created
                &&& post.grid.focus == match self.grid.focus {
                    Some(pane) => refocused(
                        self.grid.focus,
                        adjacent_pane(self.grid.panes, pane, toward),
                    ),
                    None => None,
                }
            },
            Message::Clicked(pane) => {
                &&& post.grid.panes == self.grid.panes
                &&& post.grid.panes_created == self.grid.panes_created
                &&& post.grid.focus == Some(pane)
            },
            Message::Dragged(DragEvent::Dropped { pane, target }) => self.grid.drop_outcome(
                pane,
                target,
                post.grid,
            ),
            Message::Dragged(_) => post.grid == self.grid,
            Message::Resized(event) => self.grid.resize_outcome(event, post.grid),
            Message::Maximize(pane) => self.grid.shown_outcome(Some(pane), post.grid),
            Message::Restore => self.grid.shown_outcome(None, post.grid),
            Message::Close(pane) => self.grid.close_outcome(pane, post.grid),
            Message::CloseFocused => if self.grid.focus_closable() {
                self.grid.close_outcome(self.grid.focus->Some_0, post.grid)
            } else {
                post.grid == self.grid
            },
            Message::TogglePin(pane) => self.grid.pin_outcome(pane, post.grid),
        }
    }

    /// Whether a request can be carried out: one that makes a pane needs
    /// room in the count of panes made.
    pub open spec fn can_update(self, message: Message) -> bool {
        match message {
            Message::Split(_, _) => self.grid.panes_created < usize::MAX,
            Message::SplitFocused(_) => self.grid.focus is Some ==> self.grid.panes_created
                < usize::MAX,
            _ => true,
        }
    }

    /// Carries out a request.
    pub fn update(&mut self, message: Message)
        requires
            old(self).can_update(message),
        ensures
            old(self).update_outcome(message, *final(self)),
    {
        match message {
            Message::Split(axis, pane) => {
                let _ = self.grid.split(axis, pane);
            },
            Message::SplitFocused(axis) => {
                let _ = self.grid.split_focused(axis);
            },
            Message::FocusAdjacent(toward) => {
                self.grid.focus_adjacent(toward);
            },
            Message::Clicked(pane) => {
                self.grid.click(pane);
            },
            Message::Dragged(event) => {
                match event {
                    DragEvent::Dropped { pane, target } => {
                        self.grid.drop_pane(pane, target);
                    },
                    _ => {},
                }
            },
            Message::Resized(event) => {
                self.grid.resize(event);
            },
            Message::Maximize(pane) => {
                self.grid.maximize(pane);
            },
            Message::Restore => {
                self.grid.restore();
            },
            Message::Close(pane) => {
                let _ = self.grid.close(pane);
            },
            Message::CloseFocused => {
                let _ = self.grid.close_focused();
            },
            Message::TogglePin(pane) => {
                self.grid.toggle_pin(pane);
            },
        }
    }

    /// The content that `pane` shows.
    pub fn content_of(&self, pane: Pane) -> (content: PaneContent)
        ensures
            content == listed_content(self.pane_contents@, pane),
    {
        let mut i: usize = 0;
        assert(self.pane_contents@.skip(0) =~= self.pane_contents@);
        while i < self.pane_contents.len()
            invariant
                i <= self.pane_contents.len(),
                listed_content(self.pane_contents@, pane) == listed_content(
                    self.pane_contents@.skip(i as int),
                    pane,
                ),
            decreases self.pane_contents.len() - i,
        {
            let entry = self.pane_contents[i];
            proof {
                let rest = self.pane_contents@.skip(i as int);
                assert(rest[0] == self.pane_contents@[i as int]);
                assert(rest.skip(1) =~= self.pane_contents@.skip(i + 1));
            }
            if same_pane(entry.0, pane) {
                return entry.1;
            }
            i = i + 1;
        }
        PaneContent::Text
    }
}

} // verus!
