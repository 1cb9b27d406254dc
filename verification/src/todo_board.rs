//! A board of lists that are dragged from slot to slot.
//!
//! The board decides; whoever shows it carries out what it asks for and
//! reports back what the pointer did.

use crate::highlight::{
    after_drag, after_zones, drag_began, dragged, dropped, idle, is_hovered_zone,
    should_update_droppable, zone_change, zone_marked, zone_update, zones_found, Bounds,
    Highlight, ZoneUpdate,
};
use crate::tree::{
    first_naming, lists_swapped, located, slot_ids, slot_views, IdArena, List, ListView, Slot,
    SlotView, TreeData, TreeLocation, WidgetId,
};
use vstd::prelude::*;

verus! {

/// What the pointer did to a list.
#[derive(Debug)]
pub enum Message {
    /// The list at the location is being dragged and is now at the bounds.
    DragList(TreeLocation, Bounds),
    /// These zones lie under the dragged list.
    HandleListZones(Vec<(WidgetId, Bounds)>),
    /// The list at the location was let go.
    DropList(TreeLocation),
    /// The drag was given up.
    ListDropCanceled,
}

/// What the board asks of whoever shows it.
#[derive(Debug)]
pub enum Command {
    /// Nothing is to be done.
    Nothing,
    /// Report the zones, out of these, that the bounds touch.
    FindZones { bounds: Bounds, options: Vec<WidgetId> },
    /// Exchange what the two widgets remember of their own drag.
    SwapStates(WidgetId, WidgetId),
}

/// A command as contracts see it.
pub enum CommandView {
    Nothing,
    FindZones { bounds: Bounds, options: Seq<WidgetId> },
    SwapStates(WidgetId, WidgetId),
}

impl View for Command {
    type V = CommandView;

    open spec fn view(&self) -> CommandView {
        match *self {
            Command::Nothing => CommandView::Nothing,
            Command::FindZones { bounds, options } => CommandView::FindZones {
                bounds,
                options: options@,
            },
            Command::SwapStates(a, b) => CommandView::SwapStates(a, b),
        }
    }
}

/// The board: the tree of slots and lists, and the two gestures under way.
#[derive(Debug)]
pub struct TodoBoard {
    tree: TreeData,
    todos_highlight: Highlight,
    lists_highlight: Highlight,
}

/// A board as contracts see it.
pub struct BoardView {
    pub tree: Seq<SlotView>,
    pub todos: Highlight,
    pub lists: Highlight,
}

impl View for TodoBoard {
    type V = BoardView;

    closed spec fn view(&self) -> BoardView {
        BoardView { tree: self.tree@, todos: self.todos_highlight, lists: self.lists_highlight }
    }
}

/// The reported zones that belong to the tree, each with the location of
/// its widget, in the order reported.
pub open spec fn located_zones(tree: Seq<SlotView>, zones: Seq<(WidgetId, Bounds)>) -> Seq<
    (TreeLocation, Bounds),
>
    decreases zones.len(),
{
    if zones.len() == 0 {
        Seq::empty()
    } else {
        let before = located_zones(tree, zones.drop_last());
        match located(tree, zones.last().0) {
            Some(loc) => before.push((loc, zones.last().1)),
            None => before,
        }
    }
}

/// A tree with the mark of the list in slot `slot` taken away.
pub open spec fn list_unmarked(tree: Seq<SlotView>, slot: int) -> Seq<SlotView> {
    tree.update(
        slot,
        SlotView { list: ListView { highlight: false, ..tree[slot].list }, ..tree[slot] },
    )
}

impl BoardView {
    /// No list is marked, the hovered slot is marked and no other, the
    /// gestures point into the tree, nothing is hovered unless something is
    /// dragged, and no task is being dragged.
    pub open spec fn well_marked(self) -> bool {
        &&& forall|i: int| 0 <= i < self.tree.len() ==> !(#[trigger] self.tree[i]).list.highlight
        &&& forall|i: int|
            0 <= i < self.tree.len() ==> ((#[trigger] self.tree[i]).highlight <==> self.lists.hovered
                is Some && self.lists.hovered->Some_0.slot == i)
        &&& self.lists.hovered is Some ==> self.lists.hovered->Some_0.slot < self.tree.len()
        &&& self.lists.dragging is Some ==> self.lists.dragging->Some_0.0.slot < self.tree.len()
        &&& self.lists.hovered is Some ==> self.lists.dragging is Some
        &&& self.todos == idle()
    }

    /// Whether a message speaks of a place in the tree.
    pub open spec fn accepts(self, message: Message) -> bool {
        match message {
            Message::DragList(loc, _) => loc.slot < self.tree.len(),
            Message::DropList(loc) => loc.slot < self.tree.len(),
            _ => true,
        }
    }

    /// The gesture after the zones under the dragged list were reported.
    pub open spec fn hovering(self, zones: Seq<(WidgetId, Bounds)>) -> Highlight {
        after_zones(self.lists, located_zones(self.tree, zones))
    }

    /// Whether the report of these zones makes the dragged list change
    /// places with the list of the newly hovered slot.
    pub open spec fn swaps_on(self, zones: Seq<(WidgetId, Bounds)>) -> bool {
        &&& zone_change(self.lists, self.hovering(zones)) == ZoneUpdate::Replace
        &&& self.lists.dragging is Some
    }

    /// The board after a message.
    pub open spec fn next(self, message: Message) -> BoardView {
        match message {
            Message::DragList(loc, bounds) => {
                let lists = after_drag(self.lists, loc, bounds);
                BoardView {
                    tree: if drag_began(self.lists, lists, loc) {
                        list_unmarked(self.tree, loc.slot as int)
                    } else {
                        self.tree
                    },
                    lists,
                    ..self
                }
            },
            Message::HandleListZones(zones) => {
                let lists = self.hovering(zones@);
                let marked = zone_change(self.lists, lists).applied(self.tree, self.lists, lists);
                BoardView {
                    tree: if self.swaps_on(zones@) {
                        lists_swapped(
                            marked,
                            lists.dragging->Some_0.0.slot as int,
                            lists.hovered->Some_0.slot as int,
                        )
                    } else {
                        marked
                    },
                    lists,
                    ..self
                }
            },
            Message::DropList(loc) => BoardView {
                tree: zone_marked(list_unmarked(self.tree, loc.slot as int), self.lists.hovered, false),
                todos: idle(),
                lists: idle(),
            },
            Message::ListDropCanceled => BoardView {
                tree: match self.lists.dragging {
                    Some((loc, _)) => zone_marked(
                        zone_marked(list_unmarked(self.tree, loc.slot as int), Some(loc), false),
                        self.lists.hovered,
                        false,
                    ),
                    None => self.tree,
                },
                lists: idle(),
                ..self
            },
        }
    }

    /// What the board asks for on a message: the zones under a dragged
    /// list, or the exchange that goes with a swap of two lists.
    pub open spec fn asks(self, message: Message) -> CommandView {
        match message {
            Message::DragList(_, bounds) => CommandView::FindZones {
                bounds,
                options: slot_ids(self.tree),
            },
            Message::HandleListZones(zones) => if self.swaps_on(zones@) {
                let lists = self.hovering(zones@);
                CommandView::SwapStates(
                    self.tree[lists.dragging->Some_0.0.slot as int].list.id,
                    self.tree[lists.hovered->Some_0.slot as int].list.id,
                )
            } else {
                CommandView::Nothing
            },
            _ => CommandView::Nothing,
        }
    }
}

/// Every located zone lies in the tree.
pub proof fn lemma_located_zones_in_tree(tree: Seq<SlotView>, zones: Seq<(WidgetId, Bounds)>)
    ensures
        forall|k: int|
            0 <= k < located_zones(tree, zones).len() ==> (#[trigger] located_zones(
                tree,
                zones,
            )[k]).0.slot < tree.len(),
    decreases zones.len(),
{
    if zones.len() > 0 {
        lemma_located_zones_in_tree(tree, zones.drop_last());
        let id = zones.last().0;
        if exists|i: int| first_naming(tree, id, i) {
            let i = choose|i: int| first_naming(tree, id, i);
            assert(first_naming(tree, id, i));
        }
    }
}

/// The zone that is hovered after a report lies in the tree.
pub proof fn lemma_hovering_in_tree(board: BoardView, zones: Seq<(WidgetId, Bounds)>)
    ensures
        board.hovering(zones).hovered is Some ==> board.hovering(zones).hovered->Some_0.slot
            < board.tree.len(),
        board.hovering(zones).hovered is Some ==> board.lists.dragging is Some,
        board.hovering(zones).dragging == board.lists.dragging,
{
    let found = located_zones(board.tree, zones);
    lemma_located_zones_in_tree(board.tree, zones);
    if let Some((_, bounds)) = board.lists.dragging {
        if exists|i: int| is_hovered_zone(found, bounds, i) {
            let i = choose|i: int| is_hovered_zone(found, bounds, i);
            assert(is_hovered_zone(found, bounds, i));
            assert(found[i].0.slot < board.tree.len());
        }
    }
}

/// On a well marked board at most one slot is marked, and no list is.
pub proof fn lemma_one_slot_marked(board: BoardView, i: int, j: int)
    requires
        board.well_marked(),
        0 <= i < board.tree.len(),
        0 <= j < board.tree.len(),
        board.tree[i].highlight,
        board.tree[j].highlight,
    ensures
        i == j,
{
}

/// A message that the board accepts leaves a well marked board well marked
/// and of the same length.
pub proof fn lemma_next_well_marked(board: BoardView, message: Message)
    requires
        board.well_marked(),
        board.accepts(message),
    ensures
        board.next(message).well_marked(),
        board.next(message).tree.len() == board.tree.len(),
{
    match message {
        Message::HandleListZones(zones) => {
            lemma_hovering_in_tree(board, zones@);
        },
        _ => {},
    }
}

/// After a drop or a cancelled drag nothing is dragged, nothing is hovered
/// and no slot or list is marked.
pub proof fn lemma_release_clears(board: BoardView, message: Message)
    requires
        board.well_marked(),
        board.accepts(message),
        message is DropList || message is ListDropCanceled,
    ensures
        board.next(message).lists == idle(),
        forall|i: int|
            0 <= i < board.next(message).tree.len() ==> !(#[trigger] board.next(
                message,
            ).tree[i]).highlight && !board.next(message).tree[i].list.highlight,
{
    lemma_next_well_marked(board, message);
}

/// Maps the reported zones to their places in the tree, leaving out those
/// that the tree does not know.
pub fn map_zones(tree: &TreeData, zones: Vec<(WidgetId, Bounds)>) -> (found: Vec<
    (TreeLocation, Bounds),
>)
    ensures
        found@ == located_zones(tree@, zones@),
{
    let mut found: Vec<(TreeLocation, Bounds)> = Vec::new();
    let mut i: usize = 0;
    while i < zones.len()
        invariant
            i <= zones.len(),
            found@ == located_zones(tree@, zones@.take(i as int)),
        decreases zones.len() - i,
    {
        let (id, bounds) = zones[i];
        proof {
            assert(zones@.take(i + 1).drop_last() =~= zones@.take(i as int));
        }
        if let Some(loc) = tree.find(&id) {
            found.push((loc, bounds));
        }
        i = i + 1;
    }
    proof {
        assert(zones@.take(zones@.len() as int) =~= zones@);
    }
    found
}

/// Exchanges the lists of two slots and asks for the exchange of what the
/// two lists remember of their own drag.
pub fn move_list_to_zone(tree: &mut TreeData, d_loc: &TreeLocation, h_loc: &TreeLocation) -> (command:
    Command)
    requires
        d_loc.slot < old(tree)@.len(),
        h_loc.slot < old(tree)@.len(),
    ensures
        final(tree)@ == lists_swapped(old(tree)@, d_loc.slot as int, h_loc.slot as int),
        command@ == CommandView::SwapStates(
            old(tree)@[d_loc.slot as int].list.id,
            old(tree)@[h_loc.slot as int].list.id,
        ),
{
    let l1 = tree.slot(d_loc.slot).list().id();
    let l2 = tree.slot(h_loc.slot).list().id();
    tree.swap_lists(d_loc, h_loc);
    Command::SwapStates(l1, l2)
}

/// A slot of a newly laid out board.
pub open spec fn laid_out(number: usize, title: Seq<char>) -> SlotView {
    SlotView {
        id: WidgetId::Slot(number),
        list: ListView { id: WidgetId::List(number), title, highlight: false },
        highlight: false,
    }
}

/// Adds a slot with a list of the given title to a row of slots.
fn lay_out(slots: &mut Vec<Slot>, ids: &mut IdArena, title: &str)
    requires
        old(ids).next_slot == old(slots)@.len(),
        old(ids).next_list == old(slots)@.len(),
        old(slots)@.len() < 100,
    ensures
        final(ids).next_slot == final(slots)@.len(),
        final(ids).next_list == final(slots)@.len(),
        final(slots)@.len() == old(slots)@.len() + 1,
        slot_views(final(slots)@) == slot_views(old(slots)@).push(
            laid_out(old(slots)@.len() as usize, title@),
        ),
{
    let list = List::new(title, ids);
    let slot = Slot::new(list, ids);
    slots.push(slot);
    proof {
        assert(slot_views(slots@) =~= slot_views(old(slots)@).push(
            laid_out(old(slots)@.len() as usize, title@),
        ));
    }
}

impl Default for TodoBoard {
    /// A board of six lists, one to a slot, with no gesture under way.
    fn default() -> (board: Self)
        ensures
            board@.well_marked(),
            board@.lists == idle(),
            board@.tree == seq![
                laid_out(0, "Perp Risk Metrics"@),
                laid_out(1, "Perp Performance Metrics"@),
                laid_out(2, "Positions"@),
                laid_out(3, "Open Orders"@),
                laid_out(4, "Trade History"@),
                laid_out(5, "Funding History"@),
            ],
    {
        let mut ids = IdArena::new();
        let mut slots: Vec<Slot> = Vec::new();
        assert(slot_views(slots@) =~= Seq::<SlotView>::empty());
        lay_out(&mut slots, &mut ids, "Perp Risk Metrics");
        lay_out(&mut slots, &mut ids, "Perp Performance Metrics");
        lay_out(&mut slots, &mut ids, "Positions");
        lay_out(&mut slots, &mut ids, "Open Orders");
        lay_out(&mut slots, &mut ids, "Trade History");
        lay_out(&mut slots, &mut ids, "Funding History");
        let board = TodoBoard {
            tree: TreeData::new(slots),
            todos_highlight: Highlight::default(),
            lists_highlight: Highlight::default(),
        };
        proof {
            assert(board@.tree =~= seq![
                laid_out(0, "Perp Risk Metrics"@),
                laid_out(1, "Perp Performance Metrics"@),
                laid_out(2, "Positions"@),
                laid_out(3, "Open Orders"@),
                laid_out(4, "Trade History"@),
                laid_out(5, "Funding History"@),
            ]);
        }
        board
    }
}

impl TodoBoard {
    /// The tree of slots and lists.
    pub fn tree(&self) -> (tree: &TreeData)
        ensures
            tree@ == self@.tree,
    {
        &self.tree
    }

    /// The drag of a list that is under way.
    pub fn lists_highlight(&self) -> (info: Highlight)
        ensures
            info == self@.lists,
    {
        self.lists_highlight
    }

    /// Takes in what the pointer did and says what is to be done about it.
    pub fn update(&mut self, message: Message) -> (command: Command)
        requires
            old(self)@.well_marked(),
            old(self)@.accepts(message),
        ensures
            final(self)@ == old(self)@.next(message),
            final(self)@.well_marked(),
            command@ == old(self)@.asks(message),
    {
        proof {
            lemma_next_well_marked(self@, message);
        }
        match message {
            Message::DragList(l_loc, l_bounds) => {
                let new_highlight = dragged(&self.lists_highlight, l_loc, l_bounds);
                if should_update_droppable(&self.lists_highlight, &new_highlight, &l_loc) {
                    self.tree.list_mut(&l_loc).set_highlight(false);
                }
                self.lists_highlight = new_highlight;
                proof {
                    assert(slot_ids(self.tree@) =~= slot_ids(old(self).tree@));
                }
                Command::FindZones { bounds: l_bounds, options: self.tree.list_options() }
            },
            Message::HandleListZones(zones) => {
                proof {
                    lemma_hovering_in_tree(self@, zones@);
                }
                let found = map_zones(&self.tree, zones);
                let new_info = zones_found(&self.lists_highlight, &found);
                let highlight_update = zone_update(&self.lists_highlight, &new_info);
                highlight_update.update(&mut self.tree, &self.lists_highlight, &new_info);
                self.lists_highlight = new_info;
                if highlight_update == ZoneUpdate::Replace {
                    if let Some(d_loc) = self.lists_highlight.dragging {
                        if let Some(h_loc) = self.lists_highlight.hovered {
                            return move_list_to_zone(&mut self.tree, &d_loc.0, &h_loc);
                        }
                    }
                }
                Command::Nothing
            },
            Message::DropList(l_loc) => {
                self.tree.list_mut(&l_loc).set_highlight(false);
                if let Some(s_loc) = self.lists_highlight.hovered {
                    self.tree.slot_mut(s_loc.slot()).set_highlight(false);
                }
                self.todos_highlight = dropped();
                self.lists_highlight = dropped();
                Command::Nothing
            },
            Message::ListDropCanceled => {
                if let Some(d_loc) = self.lists_highlight.dragging {
                    self.tree.list_mut(&d_loc.0).set_highlight(false);
                    self.tree.slot_mut(d_loc.0.slot()).set_highlight(false);
                    if let Some(s_loc) = self.lists_highlight.hovered {
                        self.tree.slot_mut(s_loc.slot()).set_highlight(false);
                    }
                }
                self.lists_highlight = dropped();
                Command::Nothing
            },
        }
    }
}

} // verus!
