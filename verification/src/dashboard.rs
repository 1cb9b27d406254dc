//! A dashboard: a pane grid, a column of items that can be dragged into a
//! new order, and two switches.

use crate::panes::{grid_maximized, holds_first, Axis, DragEvent, PaneBoard};
use iced::widget::pane_grid;
use iced::widget::pane_grid::ResizeEvent;
use vstd::prelude::*;

verus! {

/// What the dashboard is asked to do.
#[derive(Clone, Copy, Debug)]
pub enum Message {
    ExplainToggled(bool),
    ToggleBoards,
    Clicked(pane_grid::Pane),
    Dragged(DragEvent),
    Resized(ResizeEvent),
    Split(Axis, pane_grid::Pane),
    SplitFocused(Axis),
    Close(pane_grid::Pane),
    CloseFocused,
    Maximize(pane_grid::Pane),
    Restore,
    /// The item at the first index was picked up.
    Drag(usize, usize),
    /// The item at the first index was let go before the second index.
    Drop(usize, usize),
    /// The drag of the item at the index was given up.
    Cancel(usize),
}

/// The dashboard's state.
#[derive(Debug)]
pub struct Layout {
    pub explain: bool,
    pub boards: bool,
    pub grid: PaneBoard,
    pub dragged: Option<usize>,
    pub items: Vec<String>,
}

/// Whether the item at `key` of a column of `len` items can be let go
/// before index `loc`: a `key` just past the column names no item, so it can
/// only be let go where nothing moves, before itself or before its
/// successor.
pub open spec fn can_move(len: nat, key: int, loc: int) -> bool {
    key == len ==> loc == key || loc == key + 1
}

/// A column after the item at `key` was let go before index `loc`. An item
/// let go before itself or before its successor stays where it is, and so
/// does everything when `key` lies beyond the column; otherwise the item
/// leaves its place and enters before what stood at `loc`, or at the end
/// when `loc` is beyond the column.
pub open spec fn moved_item(items: Seq<String>, key: int, loc: int) -> Seq<String>
    recommends
        0 <= key,
        0 <= loc,
        can_move(items.len(), key, loc),
{
    if key > items.len() || key == loc || key + 1 == loc {
        items
    } else {
        let target = if loc > key {
            loc - 1
        } else {
            loc
        };
        let rest = items.remove(key);
        if target < rest.len() {
            rest.insert(target, items[key])
        } else {
            rest.push(items[key])
        }
    }
}

/// Letting an item go keeps the column's length and every item of it, each
/// as often as before.
pub proof fn lemma_moved_item_keeps_items(items: Seq<String>, key: int, loc: int)
    requires
        0 <= key,
        0 <= loc,
        can_move(items.len(), key, loc),
    ensures
        moved_item(items, key, loc).len() == items.len(),
        moved_item(items, key, loc).to_multiset() == items.to_multiset(),
{
    broadcast use vstd::multiset::group_multiset_axioms;

    if !(key > items.len() || key == loc || key + 1 == loc) {
        let target = if loc > key {
            loc - 1
        } else {
            loc
        };
        let rest = items.remove(key);
        vstd::seq_lib::to_multiset_remove(items, key);
        vstd::seq_lib::to_multiset_contains(items, items[key]);
        assert(items.contains(items[key]));
        if target < rest.len() {
            vstd::seq_lib::to_multiset_insert(rest, target, items[key]);
        } else {
            vstd::seq_lib::to_multiset_build(rest, items[key]);
        }
        assert(moved_item(items, key, loc).to_multiset() =~= items.to_multiset());
    }
}

/// The request behind the control that maximizes a pane or restores the
/// grid: none while the grid has a single pane.
pub fn maximize_control(pane: pane_grid::Pane, total_panes: usize, is_maximized: bool) -> (message:
    Option<Message>)
    ensures
        message == if total_panes <= 1 {
            None
        } else if is_maximized {
            Some(Message::Restore)
        } else {
            Some(Message::Maximize(pane))
        },
{
    if total_panes > 1 {
        if is_maximized {
            Some(Message::Restore)
        } else {
            Some(Message::Maximize(pane))
        }
    } else {
        None
    }
}

/// The request behind the control that closes a pane: none while the grid
/// has a single pane or the pane is pinned.
pub fn close_control(pane: pane_grid::Pane, total_panes: usize, is_pinned: bool) -> (message:
    Option<Message>)
    ensures
        message == if total_panes > 1 && !is_pinned {
            Some(Message::Close(pane))
        } else {
            None
        },
{
    if total_panes > 1 && !is_pinned {
        Some(Message::Close(pane))
    } else {
        None
    }
}

impl Layout {
    /// A dashboard with nothing in its column and its boards hidden.
    pub fn new() -> (made: Self)
        ensures
            !made.explain,
            !made.boards,
            exists|first: pane_grid::Pane| #[trigger] holds_first(made.grid.panes, first),
            made.grid.panes_created == 0,
            made.grid.focus is None,
            grid_maximized(made.grid.panes) is None,
            made.dragged is None,
            made.items@ == Seq::<String>::empty(),
    {
        let (grid, first) = PaneBoard::new();
        assert(holds_first(grid.panes, first));
        Layout { explain: false, boards: false, grid, dragged: None, items: Vec::new() }
    }

    /// Whether the item at `index` is the one being dragged.
    pub fn is_dragged(&self, index: usize) -> (dragged: bool)
        ensures
            dragged == (self.dragged == Some(index)),
    {
        match self.dragged {
            Some(key) => key == index,
            None => false,
        }
    }

    /// Moves the item at `key` to stand before what is at `loc`.
    pub fn drop_item(&mut self, key: usize, loc: usize)
        requires
            can_move(old(self).items@.len(), key as int, loc as int),
        ensures
            final(self).items@ == moved_item(old(self).items@, key as int, loc as int),
            final(self).items@.len() == old(self).items@.len(),
            final(self).explain == old(self).explain,
            final(self).boards == old(self).boards,
            final(self).grid == old(self).grid,
            final(self).dragged == old(self).dragged,
    {
        if key > self.items.len() || key == loc || key + 1 == loc {
            return ;
        }
        let target: usize = if loc > key {
            loc - 1
        } else {
            loc
        };
        let item = self.items.remove(key);
        if target < self.items.len() {
            self.items.insert(target, item);
        } else {
            self.items.push(item);
        }
    }

    /// Whether a request can be carried out: one that makes a pane needs
    /// room in the count of panes made, and an item that is let go must be
    /// one that can be moved.
    pub open spec fn can_update(self, message: Message) -> bool {
        match message {
            Message::Split(_, _) => self.grid.panes_created < usize::MAX,
            Message::SplitFocused(_) => self.grid.focus is Some ==> self.grid.panes_created
                < usize::MAX,
            Message::Drop(key, loc) => can_move(self.items@.len(), key as int, loc as int),
            _ => true,
        }
    }

    /// How the dashboard stands after a request, whatever the grid
    /// answered.
    pub open spec fn update_outcome(self, message: Message, post: Layout) -> bool {
        match message {
            Message::ExplainToggled(explain) => post == (Layout { explain, ..self }),
            Message::ToggleBoards => post == (Layout { boards: !self.boards, ..self }),
            Message::Drag(key, _) => post == (Layout { dragged: Some(key), ..self }),
            Message::Drop(key, loc) => {
                &&& post.items@ == moved_item(self.items@, key as int, loc as int)
                &&& post.dragged is None
                &&& post.explain == self.explain
                &&& post.boards == self.boards
                &&& post.grid == self.grid
            },
            Message::Cancel(_) => post == (Layout { dragged: None, ..self }),
            _ => {
                &&& post.explain == self.explain
                &&& post.boards == self.boards
                &&& post.dragged == self.dragged
                &&& post.items == self.items
                &&& self.grid_outcome(message, post.grid)
            },
        }
    }

    /// How the pane grid stands after a request that concerns it.
    pub open spec fn grid_outcome(self, message: Message, post: PaneBoard) -> bool {
        match message {
            Message::Clicked(pane) => {
                &&& post.panes == self.grid.panes
                &&& post.panes_created == self.grid.panes_created
                &&& post.focus == Some(pane)
            },
            Message::Dragged(DragEvent::Dropped { pane, target }) => self.grid.drop_outcome(
                pane,
                target,
                post,
            ),
            Message::Resized(event) => self.grid.resize_outcome(event, post),
            Message::Split(axis, pane) => self.grid.split_outcome(axis, pane, post),
            Message::SplitFocused(axis) => match self.grid.focus {
                Some(pane) => self.grid.split_outcome(axis, pane, post),
                None => post == self.grid,
            },
            Message::Close(pane) => self.grid.close_outcome(pane, post),
            Message::CloseFocused => if self.grid.focus_closable() {
                self.grid.close_outcome(self.grid.focus->Some_0, post)
            } else {
                post == self.grid
            },
            Message::Maximize(pane) => self.grid.shown_outcome(Some(pane), post),
            Message::Restore => self.grid.shown_outcome(None, post),
            _ => post == self.grid,
        }
    }

    /// Carries out a request.
    pub fn update(&mut self, message: Message)
        requires
            old(self).can_update(message),
        ensures
            old(self).update_outcome(message, *final(self)),
    {
        match message {
            Message::ExplainToggled(explain) => {
                self.explain = explain;
            },
            Message::ToggleBoards => {
                self.boards = !self.boards;
            },
            Message::Clicked(pane) => {
                self.grid.click(pane);
            },
            Message::Resized(event) => {
                self.grid.resize(event);
            },
            Message::Dragged(event) => {
                match event {
                    DragEvent::Dropped { pane, target } => {
                        self.grid.drop_pane(pane, target);
                    },
                    _ => {},
                }
            },
            Message::Split(axis, pane) => {
                let _ = self.grid.split(axis, pane);
            },
            Message::SplitFocused(axis) => {
                let _ = self.grid.split_focused(axis);
            },
            Message::Close(pane) => {
                let _ = self.grid.close(pane);
            },
            Message::CloseFocused => {
                let _ = self.grid.close_focused();
            },
            Message::Maximize(pane) => {
                self.grid.maximize(pane);
            },
            Message::Restore => {
                self.grid.restore();
            },
            Message::Drag(key, _) => {
                self.dragged = Some(key);
            },
            Message::Drop(key, loc) => {
                self.drop_item(key, loc);
                self.dragged = None;
            },
            Message::Cancel(_) => {
                self.dragged = None;
            },
        }
    }
}

impl Default for Layout {
    /// A dashboard that shows its boards, with three modules in its column.
    fn default() -> (made: Self)
        ensures
            !made.explain,
            made.boards,
            exists|first: pane_grid::Pane| #[trigger] holds_first(made.grid.panes, first),
            made.grid.panes_created == 0,
            made.grid.focus is None,
            grid_maximized(made.grid.panes) is None,
            made.dragged is None,
            made.items@.len() == 3,
            made.items@[0]@ == "Perp Risk Metrics Module"@,
            made.items@[1]@ == "Perp Performance Metrics Module"@,
            made.items@[2]@ == "Positions Module"@,
    {
        let (grid, first) = PaneBoard::new();
        assert(holds_first(grid.panes, first));
        let mut items: Vec<String> = Vec::new();
        items.push("Perp Risk Metrics Module".to_owned());
        items.push("Perp Performance Metrics Module".to_owned());
        items.push("Positions Module".to_owned());
        Layout { explain: false, boards: true, grid, dragged: None, items }
    }
}

} // verus!
