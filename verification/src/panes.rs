//! A grid of panes with a focus and a running count of panes made.
//!
//! The grid itself is `iced`'s pane-grid state. Verus cannot look inside it,
//! so this module names what the grid holds and gives each grid method that
//! is called a small wrapper whose contract is taken on trust. Everything
//! above the wrappers is proved.

use iced::widget::pane_grid;
use iced::widget::pane_grid::{Pane, ResizeEvent, State, Target};
use vstd::prelude::*;

verus! {

#[verifier::external_type_specification]
#[verifier::external_body]
#[verifier::reject_recursive_types(T)]
pub struct ExState<T>(iced::widget::pane_grid::State<T>);

#[verifier::external_type_specification]
#[verifier::external_body]
pub struct ExPane(iced::widget::pane_grid::Pane);

#[verifier::external_type_specification]
#[verifier::external_body]
pub struct ExTarget(iced::widget::pane_grid::Target);

#[verifier::external_type_specification]
#[verifier::external_body]
pub struct ExResizeEvent(iced::widget::pane_grid::ResizeEvent);

/// What one pane of the grid carries.
#[derive(Clone, Copy, Debug)]
pub struct DefinedPane {
    pub id: usize,
    pub is_pinned: bool,
}

impl DefinedPane {
    /// A pane with the given number, not pinned.
    pub fn new(id: usize) -> (pane: Self)
        ensures
            pane == (DefinedPane { id, is_pinned: false }),
    {
        Self { id, is_pinned: false }
    }
}

/// The line along which a pane is cut in two.
#[derive(Clone, Copy, Debug, PartialEq, Eq, Structural)]
pub enum Axis {
    Horizontal,
    Vertical,
}

/// One of the four directions in which a neighbour is looked for.
#[derive(Clone, Copy, Debug, PartialEq, Eq, Structural)]
pub enum Direction {
    Up,
    Down,
    Left,
    Right,
}

/// What a drag of a pane reports.
#[derive(Clone, Copy, Debug)]
pub enum DragEvent {
    /// The pane was picked up.
    Picked { pane: Pane },
    /// The pane was let go over a target.
    Dropped { pane: Pane, target: Target },
    /// The pane was let go outside every target.
    Canceled { pane: Pane },
}

/// The panes that a grid holds, each with what it carries.
pub uninterp spec fn grid_panes(grid: State<DefinedPane>) -> Map<Pane, DefinedPane>;

/// The pane that alone is shown, if one is maximized.
pub uninterp spec fn grid_maximized(grid: State<DefinedPane>) -> Option<Pane>;

/// The pane that lies next to `pane` in a grid, looking in one direction.
pub uninterp spec fn adjacent_pane(
    grid: State<DefinedPane>,
    pane: Pane,
    toward: Direction,
) -> Option<Pane>;

/// The pane that `pane_grid::State::split` makes when `pane` is split in a
/// grid, if it makes one.
pub uninterp spec fn split_made(grid: State<DefinedPane>, pane: Pane) -> Option<Pane>;

/// The grid that `pane_grid::State::split` leaves when `pane` is split
/// along `axis` in a grid and the new pane is to carry `state`.
pub uninterp spec fn grid_split_into(
    grid: State<DefinedPane>,
    axis: Axis,
    pane: Pane,
    state: DefinedPane,
) -> State<DefinedPane>;

/// The sibling that `pane_grid::State::close` reports when `pane` is closed
/// in a grid, if it closes the pane.
pub uninterp spec fn close_sibling(grid: State<DefinedPane>, pane: Pane) -> Option<Pane>;

/// The grid that `pane_grid::State::close` leaves when `pane` is closed in
/// a grid.
pub uninterp spec fn grid_closed(grid: State<DefinedPane>, pane: Pane) -> State<DefinedPane>;

/// The grid that `pane_grid::State::drop` leaves when `pane` is dropped onto
/// `target` in a grid.
pub uninterp spec fn grid_dropped(
    grid: State<DefinedPane>,
    pane: Pane,
    target: Target,
) -> State<DefinedPane>;

/// The grid that `pane_grid::State::resize` leaves when a split of a grid
/// is moved as an event says.
pub uninterp spec fn grid_resized(grid: State<DefinedPane>, event: ResizeEvent) -> State<
    DefinedPane,
>;

/// Calls `pane_grid::State::new`. Trusted: the new grid holds exactly the
/// returned pane, carrying `first`, and nothing is maximized.
#[verifier::external_body]
fn grid_new(first: DefinedPane) -> (made: (State<DefinedPane>, Pane))
    ensures
        grid_panes(made.0) == Map::<Pane, DefinedPane>::empty().insert(made.1, first),
        grid_maximized(made.0) is None,
{
    State::new(first)
}

/// Calls `pane_grid::State::split` and keeps the new pane of its answer.
/// Trusted: the answer depends on the grid before and the pane alone, the
/// grid afterwards on the grid before and the arguments alone; on `Some(p)`
/// the grid has gained `p`, carrying `state`, and nothing is maximized any
/// more; on `None` panes and maximized pane are as before.
#[verifier::external_body]
fn grid_split(grid: &mut State<DefinedPane>, axis: Axis, pane: Pane, state: DefinedPane) -> (made:
    Option<Pane>)
    ensures
        made == split_made(*old(grid), pane),
        *final(grid) == grid_split_into(*old(grid), axis, pane, state),
        split_effect(*old(grid), state, made, *final(grid)),
{
    let along = match axis {
        Axis::Horizontal => pane_grid::Axis::Horizontal,
        Axis::Vertical => pane_grid::Axis::Vertical,
    };
    grid.split(along, pane, state).map(|made| made.0)
}

/// Calls `pane_grid::State::close` and keeps the sibling of its answer.
/// Trusted: the answer and the grid afterwards depend on the grid before
/// and the pane alone; a maximized `pane` stops being maximized whatever
/// the answer; on `Some(_)` the grid held `pane` and has lost exactly it;
/// on `None` the panes are as before.
#[verifier::external_body]
fn grid_close(grid: &mut State<DefinedPane>, pane: Pane) -> (sibling: Option<Pane>)
    ensures
        sibling == close_sibling(*old(grid), pane),
        *final(grid) == grid_closed(*old(grid), pane),
        close_effect(*old(grid), pane, sibling, *final(grid)),
{
    grid.close(pane).map(|closed| closed.1)
}

/// Calls `pane_grid::State::get`. Trusted: the answer is what the grid holds
/// for `pane`, if it holds the pane.
#[verifier::external_body]
fn grid_get(grid: &State<DefinedPane>, pane: Pane) -> (found: Option<DefinedPane>)
    ensures
        found == pane_data(*grid, pane),
{
    grid.get(pane).copied()
}

/// Calls `pane_grid::State::get_mut`. Trusted: the answer borrows what the
/// grid holds for `pane`, if it holds the pane; what is written through the
/// borrow is what the grid then holds for it, and nothing else changes:
/// not the maximized pane, and not the layout, so that every pane keeps
/// its neighbours.
#[verifier::external_body]
fn grid_get_mut(grid: &mut State<DefinedPane>, pane: Pane) -> (found: Option<&mut DefinedPane>)
    ensures
        grid_maximized(*final(grid)) == grid_maximized(*old(grid)),
        same_neighbours(*old(grid), *final(grid)),
        match found {
            Some(data) => grid_panes(*old(grid)).contains_key(pane)
                && *data == grid_panes(*old(grid))[pane]
                && grid_panes(*final(grid)) == grid_panes(*old(grid)).insert(pane, *final(data)),
            None => !grid_panes(*old(grid)).contains_key(pane)
                && grid_panes(*final(grid)) == grid_panes(*old(grid)),
        },
{
    grid.get_mut(pane)
}

/// Calls `pane_grid::State::adjacent`. Trusted: the answer depends on the
/// grid, the pane and the direction alone.
#[verifier::external_body]
fn grid_adjacent(grid: &State<DefinedPane>, pane: Pane, toward: Direction) -> (found: Option<Pane>)
    ensures
        found == adjacent_pane(*grid, pane, toward),
{
    let direction = match toward {
        Direction::Up => pane_grid::Direction::Up,
        Direction::Down => pane_grid::Direction::Down,
        Direction::Left => pane_grid::Direction::Left,
        Direction::Right => pane_grid::Direction::Right,
    };
    grid.adjacent(pane, direction)
}

/// Calls `pane_grid::State::drop`. Trusted: the grid afterwards depends on
/// the grid before, the pane and the target alone; the drop changes places
/// in the layout and touches no entry but that of `pane`, which stays, or
/// goes, or goes and comes back under another pane with what it carried;
/// the maximized pane stays or stops being maximized.
#[verifier::external_body]
fn grid_drop(grid: &mut State<DefinedPane>, pane: Pane, target: Target)
    ensures
        *final(grid) == grid_dropped(*old(grid), pane, target),
        drop_effect(*old(grid), pane, *final(grid)),
{
    grid.drop(pane, target)
}

/// Calls `pane_grid::State::resize` with the split and ratio of the event.
/// Trusted: the grid afterwards depends on the grid before and the event
/// alone; only the layout changes, so panes and maximized pane are as
/// before.
#[verifier::external_body]
fn grid_resize(grid: &mut State<DefinedPane>, event: ResizeEvent)
    ensures
        *final(grid) == grid_resized(*old(grid), event),
        grid_panes(*final(grid)) == grid_panes(*old(grid)),
        grid_maximized(*final(grid)) == grid_maximized(*old(grid)),
{
    grid.resize(event.split, event.ratio)
}

/// Calls `pane_grid::State::maximize`. Trusted: `pane` is now the maximized
/// pane; the panes are as before, and so is the layout, so that every pane
/// keeps its neighbours.
#[verifier::external_body]
fn grid_maximize(grid: &mut State<DefinedPane>, pane: Pane)
    ensures
        grid_panes(*final(grid)) == grid_panes(*old(grid)),
        grid_maximized(*final(grid)) == Some(pane),
        same_neighbours(*old(grid), *final(grid)),
{
    grid.maximize(pane)
}

/// Calls `pane_grid::State::restore`. Trusted: no pane is maximized; the
/// panes are as before, and so is the layout, so that every pane keeps its
/// neighbours.
#[verifier::external_body]
fn grid_restore(grid: &mut State<DefinedPane>)
    ensures
        grid_panes(*final(grid)) == grid_panes(*old(grid)),
        grid_maximized(*final(grid)) is None,
        same_neighbours(*old(grid), *final(grid)),
{
    grid.restore()
}

/// Compares two panes with `Pane`'s own `==`. Trusted: it holds exactly
/// when the two are the same pane.
#[verifier::external_body]
pub(crate) fn same_pane(a: Pane, b: Pane) -> (same: bool)
    ensures
        same == (a == b),
{
    a == b
}

/// What the grid holds for a pane.
pub open spec fn pane_data(grid: State<DefinedPane>, pane: Pane) -> Option<DefinedPane> {
    if grid_panes(grid).contains_key(pane) {
        Some(grid_panes(grid)[pane])
    } else {
        None
    }
}

/// Every pane has the same neighbour in every direction in both grids.
pub open spec fn same_neighbours(pre: State<DefinedPane>, post: State<DefinedPane>) -> bool {
    forall|pane: Pane, toward: Direction| #[trigger]
        adjacent_pane(post, pane, toward) == adjacent_pane(pre, pane, toward)
}

/// The grid holds `first`, carrying the pane numbered 0, and nothing else.
pub open spec fn holds_first(grid: State<DefinedPane>, first: Pane) -> bool {
    grid_panes(grid) == Map::<Pane, DefinedPane>::empty().insert(first, fresh_pane(0))
}

/// How a grid stands after an attempt to split off a pane carrying `state`,
/// given the pane that the attempt made, if any.
pub open spec fn split_effect(
    pre: State<DefinedPane>,
    state: DefinedPane,
    made: Option<Pane>,
    post: State<DefinedPane>,
) -> bool {
    match made {
        Some(p) => grid_panes(post) == grid_panes(pre).insert(p, state) && grid_maximized(post)
            is None,
        None => grid_panes(post) == grid_panes(pre) && grid_maximized(post) == grid_maximized(pre),
    }
}

/// How a grid stands after an attempt to close `pane`, given the sibling
/// that the attempt reported, if any.
pub open spec fn close_effect(
    pre: State<DefinedPane>,
    pane: Pane,
    sibling: Option<Pane>,
    post: State<DefinedPane>,
) -> bool {
    &&& grid_maximized(post) == if grid_maximized(pre) == Some(pane) {
        None
    } else {
        grid_maximized(pre)
    }
    &&& match sibling {
        Some(_) => grid_panes(pre).contains_key(pane) && grid_panes(post) == grid_panes(
            pre,
        ).remove(pane),
        None => grid_panes(post) == grid_panes(pre),
    }
}

/// How a grid stands after `pane` was dropped somewhere: every other pane
/// is held as before, and `pane` is held as before, or no longer, or no
/// longer but some pane holds what it carried.
pub open spec fn drop_effect(pre: State<DefinedPane>, pane: Pane, post: State<DefinedPane>) -> bool {
    &&& grid_maximized(post) == grid_maximized(pre) || grid_maximized(post) is None
    &&& {
        ||| grid_panes(post) == grid_panes(pre)
        ||| grid_panes(pre).contains_key(pane) && grid_panes(post) == grid_panes(pre).remove(pane)
        ||| grid_panes(pre).contains_key(pane) && exists|moved: Pane|
            grid_panes(post) == #[trigger] grid_panes(pre).remove(pane).insert(
                moved,
                grid_panes(pre)[pane],
            )
    }
}

/// The focus after a search for a pane: the pane found, or the old focus.
pub open spec fn refocused(focus: Option<Pane>, found: Option<Pane>) -> Option<Pane> {
    match found {
        Some(p) => Some(p),
        None => focus,
    }
}

/// The pane that a running count gives to the next split.
pub open spec fn fresh_pane(created: usize) -> DefinedPane {
    DefinedPane { id: created, is_pinned: false }
}

/// A pane's data with its pin turned over.
pub open spec fn pin_toggled(data: DefinedPane) -> DefinedPane {
    DefinedPane { id: data.id, is_pinned: !data.is_pinned }
}

/// A pane grid together with the pane in focus and the number of panes
/// made so far, which numbers the next one.
#[derive(Debug)]
pub struct PaneBoard {
    pub panes: State<DefinedPane>,
    pub panes_created: usize,
    pub focus: Option<Pane>,
}

impl PaneBoard {
    /// How the board stands after `pane` was split along `axis`: the grid
    /// is the one that the split leaves; the pane that the split makes, if
    /// it makes one, carries the old count as its number and takes the
    /// focus; and the count has gone up by one either way.
    pub open spec fn split_outcome(self, axis: Axis, pane: Pane, post: PaneBoard) -> bool {
        &&& post.panes == grid_split_into(
            self.panes,
            axis,
            pane,
            fresh_pane(self.panes_created),
        )
        &&& split_effect(
            self.panes,
            fresh_pane(self.panes_created),
            split_made(self.panes, pane),
            post.panes,
        )
        &&& post.focus == refocused(self.focus, split_made(self.panes, pane))
        &&& post.panes_created == self.panes_created + 1
    }

    /// How the board stands after `pane` was closed: the grid is the one
    /// that the close leaves, and the sibling that the close reports, if
    /// it reports one, takes the focus.
    pub open spec fn close_outcome(self, pane: Pane, post: PaneBoard) -> bool {
        &&& post.panes == grid_closed(self.panes, pane)
        &&& close_effect(self.panes, pane, close_sibling(self.panes, pane), post.panes)
        &&& post.focus == refocused(self.focus, close_sibling(self.panes, pane))
        &&& post.panes_created == self.panes_created
    }

    /// How the board stands after the pin of `pane` was turned over: a pane
    /// that the grid holds carries the turned pin, and nothing else has
    /// changed.
    pub open spec fn pin_outcome(self, pane: Pane, post: PaneBoard) -> bool {
        &&& grid_panes(post.panes) == match pane_data(self.panes, pane) {
            Some(data) => grid_panes(self.panes).insert(pane, pin_toggled(data)),
            None => grid_panes(self.panes),
        }
        &&& grid_maximized(post.panes) == grid_maximized(self.panes)
        &&& same_neighbours(self.panes, post.panes)
        &&& post.focus == self.focus
        &&& post.panes_created == self.panes_created
    }

    /// How the board stands after the maximized pane was set to
    /// `maximized`: panes, layout, focus and count are as before.
    pub open spec fn shown_outcome(self, maximized: Option<Pane>, post: PaneBoard) -> bool {
        &&& self.same_panes(maximized, post)
        &&& same_neighbours(self.panes, post.panes)
    }

    /// How the board stands after `pane` was dropped onto `target`: the grid
    /// is the one that the drop leaves, in which no entry but that of `pane`
    /// is touched; focus and count are as before.
    pub open spec fn drop_outcome(self, pane: Pane, target: Target, post: PaneBoard) -> bool {
        &&& post.panes == grid_dropped(self.panes, pane, target)
        &&& drop_effect(self.panes, pane, post.panes)
        &&& post.focus == self.focus
        &&& post.panes_created == self.panes_created
    }

    /// How the board stands after a split was moved as `event` says: the
    /// grid is the one that the resize leaves, with the panes, the
    /// maximized pane, the focus and the count as before.
    pub open spec fn resize_outcome(self, event: ResizeEvent, post: PaneBoard) -> bool {
        &&& post.panes == grid_resized(self.panes, event)
        &&& self.same_panes(grid_maximized(self.panes), post)
    }

    /// The board holds the same panes with the same focus and count as
    /// `post`, and `post` has `maximized` as its maximized pane.
    pub open spec fn same_panes(self, maximized: Option<Pane>, post: PaneBoard) -> bool {
        &&& grid_panes(post.panes) == grid_panes(self.panes)
        &&& grid_maximized(post.panes) == maximized
        &&& post.focus == self.focus
        &&& post.panes_created == self.panes_created
    }

    /// A board whose grid holds one pane, numbered 0. Returns the pane too.
    pub fn new() -> (made: (Self, Pane))
        ensures
            holds_first(made.0.panes, made.1),
            grid_maximized(made.0.panes) is None,
            made.0.panes_created == 0,
            made.0.focus is None,
    {
        let (panes, first) = grid_new(DefinedPane::new(0));
        (PaneBoard { panes, panes_created: 0, focus: None }, first)
    }

    /// Moves the focus to `found`, if a pane was found.
    pub fn refocus(&mut self, found: Option<Pane>)
        ensures
            final(self).focus == refocused(old(self).focus, found),
            final(self).panes == old(self).panes,
            final(self).panes_created == old(self).panes_created,
    {
        if let Some(pane) = found {
            self.focus = Some(pane);
        }
    }

    /// Splits `pane` along `axis`. The new pane is numbered by the count of
    /// panes made, takes the focus if the grid made it, and the count goes
    /// up whether or not it did.
    pub fn split(&mut self, axis: Axis, pane: Pane) -> (made: Option<Pane>)
        requires
            old(self).panes_created < usize::MAX,
        ensures
            made == split_made(old(self).panes, pane),
            old(self).split_outcome(axis, pane, *final(self)),
    {
        let made = grid_split(&mut self.panes, axis, pane, DefinedPane::new(self.panes_created));
        self.refocus(made);
        self.panes_created = self.panes_created + 1;
        made
    }

    /// Splits the pane in focus along `axis`; without a focus nothing
    /// happens and `None` comes back.
    pub fn split_focused(&mut self, axis: Axis) -> (made: Option<Pane>)
        requires
            old(self).focus is Some ==> old(self).panes_created < usize::MAX,
        ensures
            match old(self).focus {
                Some(pane) => made == split_made(old(self).panes, pane) && old(
                    self,
                ).split_outcome(axis, pane, *final(self)),
                None => *final(self) == *old(self) && made is None,
            },
    {
        match self.focus {
            Some(pane) => self.split(axis, pane),
            None => None,
        }
    }

    /// Moves the focus to the neighbour of the pane in focus, if there is a
    /// focus and it has a neighbour in that direction.
    pub fn focus_adjacent(&mut self, toward: Direction)
        ensures
            final(self).panes == old(self).panes,
            final(self).panes_created == old(self).panes_created,
            final(self).focus == match old(self).focus {
                Some(pane) => refocused(
                    old(self).focus,
                    adjacent_pane(old(self).panes, pane, toward),
                ),
                None => None,
            },
    {
        if let Some(pane) = self.focus {
            let found = grid_adjacent(&self.panes, pane, toward);
            self.refocus(found);
        }
    }

    /// Puts the focus on `pane`.
    pub fn click(&mut self, pane: Pane)
        ensures
            final(self).focus == Some(pane),
            final(self).panes == old(self).panes,
            final(self).panes_created == old(self).panes_created,
    {
        self.focus = Some(pane);
    }

    /// Drops `pane` onto `target`: the grid becomes what the drop of this
    /// pane onto this target makes of it. Focus and count stay as they are,
    /// and no pane but the dropped one is held otherwise than before.
    pub fn drop_pane(&mut self, pane: Pane, target: Target)
        ensures
            old(self).drop_outcome(pane, target, *final(self)),
    {
        grid_drop(&mut self.panes, pane, target);
    }

    /// Moves a split as the event says: the grid becomes what the resize
    /// by this event makes of it. Panes, maximized pane, focus and count
    /// stay as they are.
    pub fn resize(&mut self, event: ResizeEvent)
        ensures
            old(self).resize_outcome(event, *final(self)),
    {
        grid_resize(&mut self.panes, event);
    }

    /// Shows `pane` alone.
    pub fn maximize(&mut self, pane: Pane)
        ensures
            old(self).shown_outcome(Some(pane), *final(self)),
    {
        grid_maximize(&mut self.panes, pane);
    }

    /// Shows all panes again.
    pub fn restore(&mut self)
        ensures
            old(self).shown_outcome(None, *final(self)),
    {
        grid_restore(&mut self.panes);
    }

    /// Closes `pane`. If the grid closed it, the focus goes to the sibling
    /// that the grid reports, which is returned.
    pub fn close(&mut self, pane: Pane) -> (sibling: Option<Pane>)
        ensures
            sibling == close_sibling(old(self).panes, pane),
            old(self).close_outcome(pane, *final(self)),
    {
        let sibling = grid_close(&mut self.panes, pane);
        self.refocus(sibling);
        sibling
    }

    /// Whether closing the pane in focus is to be tried: there is a focus,
    /// the grid holds it, and it is not pinned.
    pub open spec fn focus_closable(self) -> bool {
        match self.focus {
            Some(pane) => match pane_data(self.panes, pane) {
                Some(data) => !data.is_pinned,
                None => false,
            },
            None => false,
        }
    }

    /// Closes the pane in focus unless it is pinned, unknown to the grid,
    /// or there is no focus; then nothing changes and `None` comes back.
    pub fn close_focused(&mut self) -> (sibling: Option<Pane>)
        ensures
            old(self).focus_closable() ==> sibling == close_sibling(
                old(self).panes,
                old(self).focus->Some_0,
            ) && old(self).close_outcome(old(self).focus->Some_0, *final(self)),
            !old(self).focus_closable() ==> *final(self) == *old(self) && sibling is None,
    {
        if let Some(pane) = self.focus {
            if let Some(data) = grid_get(&self.panes, pane) {
                if !data.is_pinned {
                    return self.close(pane);
                }
            }
        }
        None
    }

    /// Pins `pane` if it was not pinned and unpins it if it was; a pane that
    /// the grid does not hold changes nothing.
    pub fn toggle_pin(&mut self, pane: Pane)
        ensures
            old(self).pin_outcome(pane, *final(self)),
    {
        match grid_get_mut(&mut self.panes, pane) {
            Some(data) => {
                data.is_pinned = !data.is_pinned;
            },
            None => {},
        }
    }

    /// What the grid holds for `pane`, if it holds the pane.
    pub fn get(&self, pane: Pane) -> (found: Option<DefinedPane>)
        ensures
            found == pane_data(self.panes, pane),
    {
        grid_get(&self.panes, pane)
    }

    /// Whether `pane` is the pane in focus.
    pub fn is_focused(&self, pane: Pane) -> (focused: bool)
        ensures
            focused == (self.focus == Some(pane)),
    {
        match self.focus {
            Some(current) => same_pane(current, pane),
            None => false,
        }
    }
}

} // verus!
