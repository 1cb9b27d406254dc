//! The board's tree: an ordered row of slots, each holding one list.
//!
//! Slots and lists carry identities drawn from an arena that the caller
//! owns, so that a widget can be found again by its identity alone.

use vstd::prelude::*;

verus! {

/// The identity of a widget of the tree.
#[derive(Clone, Copy, Debug, PartialEq, Eq, Hash, Structural)]
pub enum WidgetId {
    /// The slot with the given number.
    Slot(usize),
    /// The list with the given number.
    List(usize),
}

/// Hands out identities, numbering slots and lists apart from zero upward.
#[derive(Debug)]
pub struct IdArena {
    pub next_slot: usize,
    pub next_list: usize,
}

/// The number that follows `n`, starting over after the largest.
pub open spec fn following(n: usize) -> usize {
    if n == usize::MAX {
        0
    } else {
        (n + 1) as usize
    }
}

impl IdArena {
    /// An arena that has handed out nothing.
    pub fn new() -> (arena: Self)
        ensures
            arena.next_slot == 0,
            arena.next_list == 0,
    {
        IdArena { next_slot: 0, next_list: 0 }
    }

    /// The identity of the next slot.
    pub fn slot_id(&mut self) -> (id: WidgetId)
        ensures
            id == WidgetId::Slot(old(self).next_slot),
            final(self).next_slot == following(old(self).next_slot),
            final(self).next_list == old(self).next_list,
    {
        let number = self.next_slot;
        self.next_slot = number.wrapping_add(1);
        WidgetId::Slot(number)
    }

    /// The identity of the next list.
    pub fn list_id(&mut self) -> (id: WidgetId)
        ensures
            id == WidgetId::List(old(self).next_list),
            final(self).next_list == following(old(self).next_list),
            final(self).next_slot == old(self).next_slot,
    {
        let number = self.next_list;
        self.next_list = number.wrapping_add(1);
        WidgetId::List(number)
    }
}

/// What a location points at inside a slot.
#[derive(Clone, Copy, Debug, PartialEq, Eq, Structural)]
pub enum TreeElement {
    Slot,
    List,
    Todo(usize),
}

/// A position in the tree: a slot index and the element addressed in it.
#[derive(Clone, Copy, Debug, PartialEq, Eq, Structural)]
pub struct TreeLocation {
    pub slot: usize,
    pub element: TreeElement,
}

impl TreeLocation {
    pub fn new(slot: usize, element: TreeElement) -> (loc: Self)
        ensures
            loc == (TreeLocation { slot, element }),
    {
        Self { slot, element }
    }

    pub fn element(&self) -> (e: &TreeElement)
        ensures
            *e == self.element,
    {
        &self.element
    }

    pub fn slot(&self) -> (s: usize)
        ensures
            s == self.slot,
    {
        self.slot
    }
}

/// A list as contracts see it.
pub struct ListView {
    pub id: WidgetId,
    pub title: Seq<char>,
    pub highlight: bool,
}

/// A slot as contracts see it.
pub struct SlotView {
    pub id: WidgetId,
    pub list: ListView,
    pub highlight: bool,
}

/// Some list that holds tasks and can be dragged into a slot.
#[derive(Debug)]
pub struct List {
    id: WidgetId,
    title: String,
    highlight: bool,
}

impl View for List {
    type V = ListView;

    closed spec fn view(&self) -> ListView {
        ListView { id: self.id, title: self.title@, highlight: self.highlight }
    }
}

impl List {
    /// A new list with a title and the arena's next list identity, not
    /// highlighted.
    pub fn new(title: &str, ids: &mut IdArena) -> (list: Self)
        ensures
            list@ == (ListView {
                id: WidgetId::List(old(ids).next_list),
                title: title@,
                highlight: false,
            }),
            final(ids).next_list == following(old(ids).next_list),
            final(ids).next_slot == old(ids).next_slot,
    {
        let id = ids.list_id();
        List { id, title: title.to_owned(), highlight: false }
    }

    pub fn id(&self) -> (id: WidgetId)
        ensures
            id == self@.id,
    {
        self.id
    }

    pub fn title(&self) -> (title: &str)
        ensures
            title@ == self@.title,
    {
        self.title.as_str()
    }

    pub fn is_highlighted(&self) -> (highlight: bool)
        ensures
            highlight == self@.highlight,
    {
        self.highlight
    }

    /// Marks or unmarks the list.
    pub fn set_highlight(&mut self, highlight: bool)
        ensures
            final(self)@ == (ListView { highlight, ..old(self)@ }),
    {
        self.highlight = highlight;
    }
}

/// Some slot that a list can be dragged into.
#[derive(Debug)]
pub struct Slot {
    id: WidgetId,
    list: List,
    highlight: bool,
}

impl View for Slot {
    type V = SlotView;

    closed spec fn view(&self) -> SlotView {
        SlotView { id: self.id, list: self.list@, highlight: self.highlight }
    }
}

impl Slot {
    /// A new slot that holds `list` and has the arena's next slot identity,
    /// not highlighted.
    pub fn new(list: List, ids: &mut IdArena) -> (slot: Self)
        ensures
            slot@ == (SlotView {
                id: WidgetId::Slot(old(ids).next_slot),
                list: list@,
                highlight: false,
            }),
            final(ids).next_slot == following(old(ids).next_slot),
            final(ids).next_list == old(ids).next_list,
    {
        let id = ids.slot_id();
        Slot { id, list, highlight: false }
    }

    pub fn id(&self) -> (id: WidgetId)
        ensures
            id == self@.id,
    {
        self.id
    }

    pub fn list(&self) -> (list: &List)
        ensures
            list@ == self@.list,
    {
        &self.list
    }

    pub fn is_highlighted(&self) -> (highlight: bool)
        ensures
            highlight == self@.highlight,
    {
        self.highlight
    }

    /// Marks or unmarks the slot.
    pub fn set_highlight(&mut self, highlight: bool)
        ensures
            final(self)@ == (SlotView { highlight, ..old(self)@ }),
    {
        self.highlight = highlight;
    }
}

/// The views of a row of slots, in order.
pub open spec fn slot_views(slots: Seq<Slot>) -> Seq<SlotView> {
    Seq::new(slots.len(), |i: int| slots[i]@)
}

/// The element of a slot that an identity names, if it names one: the slot
/// itself before its list.
pub open spec fn named_in(slot: SlotView, id: WidgetId) -> Option<TreeElement> {
    if slot.id == id {
        Some(TreeElement::Slot)
    } else if slot.list.id == id {
        Some(TreeElement::List)
    } else {
        None
    }
}

/// Where an identity is found in a tree: in the first slot in which it
/// names something, or nowhere.
pub open spec fn located(tree: Seq<SlotView>, id: WidgetId) -> Option<TreeLocation> {
    if exists|i: int| first_naming(tree, id, i) {
        let i = choose|i: int| first_naming(tree, id, i);
        Some(TreeLocation { slot: i as usize, element: named_in(tree[i], id)->Some_0 })
    } else {
        None
    }
}

/// Slot `i` is the first of the tree in which `id` names something.
pub open spec fn first_naming(tree: Seq<SlotView>, id: WidgetId, i: int) -> bool {
    &&& 0 <= i < tree.len()
    &&& named_in(tree[i], id) is Some
    &&& forall|j: int| 0 <= j < i ==> named_in(#[trigger] tree[j], id) is None
}

/// A tree with the lists of slots `i` and `j` exchanged; slots keep their
/// own identity and mark. The same slot twice, or a slot outside the tree,
/// leaves the tree as it is.
pub open spec fn lists_swapped(tree: Seq<SlotView>, i: int, j: int) -> Seq<SlotView> {
    if i != j && 0 <= i < tree.len() && 0 <= j < tree.len() {
        tree.update(i, SlotView { list: tree[j].list, ..tree[i] }).update(
            j,
            SlotView { list: tree[i].list, ..tree[j] },
        )
    } else {
        tree
    }
}

/// The identities of the slots of a tree, in order.
pub open spec fn slot_ids(tree: Seq<SlotView>) -> Seq<WidgetId> {
    Seq::new(tree.len(), |i: int| tree[i].id)
}

/// Holds lists organized by slots.
#[derive(Debug)]
pub struct TreeData {
    slots: Vec<Slot>,
}

impl View for TreeData {
    type V = Seq<SlotView>;

    closed spec fn view(&self) -> Seq<SlotView> {
        slot_views(self.slots@)
    }
}

impl TreeData {
    pub fn new(slots: Vec<Slot>) -> (tree: Self)
        ensures
            tree@ == slot_views(slots@),
    {
        Self { slots }
    }

    /// The number of slots.
    pub fn len(&self) -> (n: usize)
        ensures
            n == self@.len(),
    {
        self.slots.len()
    }

    /// The slot at `index`.
    pub fn slot(&self, index: usize) -> (slot: &Slot)
        requires
            index < self@.len(),
        ensures
            slot@ == self@[index as int],
    {
        &self.slots[index]
    }

    /// Where the widget with the given identity is: the first slot that
    /// has the identity itself or whose list has it.
    pub fn find(&self, id: &WidgetId) -> (found: Option<TreeLocation>)
        ensures
            found == located(self@, *id),
            match found {
                Some(loc) => first_naming(self@, *id, loc.slot as int) && Some(loc.element)
                    == named_in(self@[loc.slot as int], *id),
                None => forall|j: int| 0 <= j < self@.len() ==> named_in(#[trigger] self@[j], *id)
                    is None,
            },
    {
        let mut i: usize = 0;
        while i < self.slots.len()
            invariant
                i <= self.slots.len(),
                forall|j: int| 0 <= j < i ==> named_in(#[trigger] self@[j], *id) is None,
            decreases self.slots.len() - i,
        {
            let slot = &self.slots[i];
            if slot.id == *id {
                proof {
                    lemma_first_naming_is_located(self@, *id, i as int);
                }
                return Some(TreeLocation::new(i, TreeElement::Slot));
            }
            if slot.list.id == *id {
                proof {
                    lemma_first_naming_is_located(self@, *id, i as int);
                }
                return Some(TreeLocation::new(i, TreeElement::List));
            }
            i = i + 1;
        }
        None
    }

    pub fn slot_mut(&mut self, index: usize) -> (slot: &mut Slot)
        requires
            index < old(self)@.len(),
        ensures
            slot@ == old(self)@[index as int],
            final(self)@ =~= old(self)@.update(index as int, final(slot)@),
    {
        &mut self.slots[index]
    }

    /// The list of the slot that `location` lies in, whichever element of
    /// the slot it addresses.
    pub fn list_mut(&mut self, location: &TreeLocation) -> (list: &mut List)
        requires
            location.slot < old(self)@.len(),
        ensures
            list@ == old(self)@[location.slot as int].list,
            final(self)@ =~= old(self)@.update(
                location.slot as int,
                SlotView { list: final(list)@, ..old(self)@[location.slot as int] },
            ),
    {
        let i = location.slot;
        &mut self.slots[i].list
    }

    /// Exchanges the lists of the slots that the two locations lie in.
    pub fn swap_lists(&mut self, l1: &TreeLocation, l2: &TreeLocation)
        ensures
            final(self)@ == lists_swapped(old(self)@, l1.slot as int, l2.slot as int),
    {
        let i = l1.slot;
        let j = l2.slot;
        if i == j || i >= self.slots.len() || j >= self.slots.len() {
            return ;
        }
        let (low, high) = if i < j {
            (i, j)
        } else {
            (j, i)
        };
        let upper = self.slots.remove(high);
        let lower = self.slots.remove(low);
        let Slot { id: upper_id, list: upper_list, highlight: upper_mark } = upper;
        let Slot { id: lower_id, list: lower_list, highlight: lower_mark } = lower;
        self.slots.insert(low, Slot { id: lower_id, list: upper_list, highlight: lower_mark });
        self.slots.insert(high, Slot { id: upper_id, list: lower_list, highlight: upper_mark });
        proof {
            assert(slot_views(self.slots@) =~= lists_swapped(old(self)@, i as int, j as int));
        }
    }

    /// The identities of all the widgets that a list can be dropped on.
    pub fn list_options(&self) -> (ids: Vec<WidgetId>)
        ensures
            ids@ == slot_ids(self@),
    {
        let mut ids: Vec<WidgetId> = Vec::new();
        let mut i: usize = 0;
        while i < self.slots.len()
            invariant
                i <= self.slots.len(),
                ids@ == slot_ids(self@).take(i as int),
            decreases self.slots.len() - i,
        {
            ids.push(self.slots[i].id);
            proof {
                assert(ids@ =~= slot_ids(self@).take(i + 1));
            }
            i = i + 1;
        }
        proof {
            assert(ids@ =~= slot_ids(self@));
        }
        ids
    }
}

/// Exchanging the lists of two slots twice gives the tree back, and the
/// slots keep their identities and marks throughout.
pub proof fn lemma_lists_swapped_twice(tree: Seq<SlotView>, i: int, j: int)
    ensures
        lists_swapped(lists_swapped(tree, i, j), i, j) == tree,
        lists_swapped(tree, i, j).len() == tree.len(),
        slot_ids(lists_swapped(tree, i, j)) == slot_ids(tree),
        forall|k: int|
            0 <= k < tree.len() ==> (#[trigger] lists_swapped(tree, i, j)[k]).highlight
                == tree[k].highlight,
{
    assert(lists_swapped(lists_swapped(tree, i, j), i, j) =~= tree);
    assert(slot_ids(lists_swapped(tree, i, j)) =~= slot_ids(tree));
}

/// The first slot in which an identity names something is where the
/// identity is located, and it is located nowhere else.
pub proof fn lemma_first_naming_is_located(tree: Seq<SlotView>, id: WidgetId, i: int)
    requires
        first_naming(tree, id, i),
    ensures
        located(tree, id) == Some(
            TreeLocation { slot: i as usize, element: named_in(tree[i], id)->Some_0 },
        ),
{
    let k = choose|k: int| first_naming(tree, id, k);
    assert(first_naming(tree, id, k));
    if k < i {
        assert(named_in(tree[k], id) is None);
    }
    if i < k {
        assert(named_in(tree[i], id) is None);
    }
}

} // verus!
