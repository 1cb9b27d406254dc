//! What is being dragged and what it hovers over, and how a change of the
//! hovered zone is answered.

use crate::tree::{SlotView, TreeData, TreeLocation};
use vstd::prelude::*;

verus! {

/// A rectangle on whole pixels: its top left corner and its size.
#[derive(Clone, Copy, Debug, PartialEq, Eq, Structural)]
pub struct Bounds {
    pub x: i32,
    pub y: i32,
    pub width: u32,
    pub height: u32,
}

/// The length that two stretches of a line share: one starts at `a` and is
/// `m` long, the other starts at `b` and is `n` long.
pub open spec fn shared_length(a: int, m: int, b: int, n: int) -> int {
    let from = if a > b {
        a
    } else {
        b
    };
    let to = if a + m < b + n {
        a + m
    } else {
        b + n
    };
    if to > from {
        to - from
    } else {
        0
    }
}

impl Bounds {
    /// The area that two rectangles share.
    pub open spec fn overlap_area(self, other: Bounds) -> int {
        shared_length(self.x as int, self.width as int, other.x as int, other.width as int)
            * shared_length(
            self.y as int,
            self.height as int,
            other.y as int,
            other.height as int,
        )
    }

    /// The area that two rectangles share.
    pub fn overlap(&self, other: &Bounds) -> (area: u64)
        ensures
            area == self.overlap_area(*other),
    {
        let wide = shared(self.x, self.width, other.x, other.width);
        let high = shared(self.y, self.height, other.y, other.height);
        assert(0 <= wide * high <= 0xFFFF_FFFF * 0xFFFF_FFFF) by (nonlinear_arith)
            requires
                0 <= wide <= 0xFFFF_FFFF,
                0 <= high <= 0xFFFF_FFFF,
        ;
        wide * high
    }

    /// Whether two rectangles share any area.
    pub fn intersects(&self, other: &Bounds) -> (shares: bool)
        ensures
            shares == (self.overlap_area(*other) > 0),
    {
        let wide = shared(self.x, self.width, other.x, other.width);
        let high = shared(self.y, self.height, other.y, other.height);
        assert((wide * high > 0) == (wide > 0 && high > 0)) by (nonlinear_arith)
            requires
                0 <= wide,
                0 <= high,
        ;
        wide > 0 && high > 0
    }
}

/// The length that two stretches of a line share.
fn shared(a: i32, m: u32, b: i32, n: u32) -> (length: u64)
    ensures
        length == shared_length(a as int, m as int, b as int, n as int),
        length <= m,
        length <= n,
{
    let from: i64 = if a > b {
        a as i64
    } else {
        b as i64
    };
    let a_end: i64 = a as i64 + m as i64;
    let b_end: i64 = b as i64 + n as i64;
    let to: i64 = if a_end < b_end {
        a_end
    } else {
        b_end
    };
    if to > from {
        (to - from) as u64
    } else {
        0
    }
}

/// The drag under way, if any, and the zone it hovers over, if any.
#[derive(Clone, Copy, Debug)]
pub struct Highlight {
    /// Where the dragged element came from, and where it is now.
    pub dragging: Option<(TreeLocation, Bounds)>,
    /// The zone that the dragged element hovers over.
    pub hovered: Option<TreeLocation>,
}

impl Default for Highlight {
    /// Nothing dragged, nothing hovered.
    fn default() -> (info: Self)
        ensures
            info == idle(),
    {
        Highlight { dragging: None, hovered: None }
    }
}

/// The state in which nothing is dragged and nothing hovered.
pub open spec fn idle() -> Highlight {
    Highlight { dragging: None, hovered: None }
}

/// Zone `i` is the one that a dragged rectangle hovers over: it shares some
/// area with the rectangle, no zone shares more, and no earlier zone shares
/// as much.
pub open spec fn is_hovered_zone(zones: Seq<(TreeLocation, Bounds)>, dragged: Bounds, i: int) -> bool {
    &&& 0 <= i < zones.len()
    &&& zones[i].1.overlap_area(dragged) > 0
    &&& forall|j: int|
        0 <= j < zones.len() ==> (#[trigger] zones[j]).1.overlap_area(dragged)
            <= zones[i].1.overlap_area(dragged)
    &&& forall|j: int|
        0 <= j < i ==> (#[trigger] zones[j]).1.overlap_area(dragged) < zones[i].1.overlap_area(
            dragged,
        )
}

/// The location of the zone that a dragged rectangle hovers over, if it
/// shares area with any.
pub open spec fn hovered_zone(zones: Seq<(TreeLocation, Bounds)>, dragged: Bounds) -> Option<
    TreeLocation,
> {
    if exists|i: int| is_hovered_zone(zones, dragged, i) {
        Some(zones[choose|i: int| is_hovered_zone(zones, dragged, i)].0)
    } else {
        None
    }
}

/// At most one zone is the hovered one.
pub proof fn lemma_hovered_zone_unique(
    zones: Seq<(TreeLocation, Bounds)>,
    dragged: Bounds,
    i: int,
    k: int,
)
    requires
        is_hovered_zone(zones, dragged, i),
        is_hovered_zone(zones, dragged, k),
    ensures
        i == k,
{
    if i < k {
        assert(zones[i].1.overlap_area(dragged) < zones[k].1.overlap_area(dragged));
        assert(zones[k].1.overlap_area(dragged) <= zones[i].1.overlap_area(dragged));
    }
    if k < i {
        assert(zones[k].1.overlap_area(dragged) < zones[i].1.overlap_area(dragged));
        assert(zones[i].1.overlap_area(dragged) <= zones[k].1.overlap_area(dragged));
    }
}

/// The state after `loc` was dragged to `bounds`: the drag is noted and the
/// hovered zone kept.
pub open spec fn after_drag(info: Highlight, loc: TreeLocation, bounds: Bounds) -> Highlight {
    Highlight { dragging: Some((loc, bounds)), hovered: info.hovered }
}

/// The state after the zones under the dragged element were reported:
/// the drag is kept, and the hovered zone is the one that shares the most
/// area with the dragged element. Without a drag nothing is hovered.
pub open spec fn after_zones(info: Highlight, zones: Seq<(TreeLocation, Bounds)>) -> Highlight {
    Highlight {
        dragging: info.dragging,
        hovered: match info.dragging {
            Some((_, bounds)) => hovered_zone(zones, bounds),
            None => None,
        },
    }
}

/// Notes that `loc` is being dragged and is now at `bounds`.
pub fn dragged(info: &Highlight, loc: TreeLocation, bounds: Bounds) -> (next: Highlight)
    ensures
        next == after_drag(*info, loc, bounds),
{
    Highlight { dragging: Some((loc, bounds)), hovered: info.hovered }
}

/// Notes which of the reported zones the dragged element hovers over.
pub fn zones_found(info: &Highlight, zones: &Vec<(TreeLocation, Bounds)>) -> (next: Highlight)
    ensures
        next == after_zones(*info, zones@),
{
    let bounds = match info.dragging {
        Some((_, bounds)) => bounds,
        None => {
            return Highlight { dragging: info.dragging, hovered: None };
        },
    };
    let mut best: Option<usize> = None;
    let mut best_area: u64 = 0;
    let mut i: usize = 0;
    while i < zones.len()
        invariant
            i <= zones.len(),
            match best {
                Some(b) => b < i && best_area == zones@[b as int].1.overlap_area(bounds)
                    && best_area > 0 && forall|j: int|
                    0 <= j < b ==> (#[trigger] zones@[j]).1.overlap_area(bounds) < best_area,
                None => best_area == 0,
            },
            forall|j: int| 0 <= j < i ==> (#[trigger] zones@[j]).1.overlap_area(bounds) <= best_area,
        decreases zones.len() - i,
    {
        let area = zones[i].1.overlap(&bounds);
        if area > best_area {
            best = Some(i);
            best_area = area;
        }
        i = i + 1;
    }
    match best {
        Some(b) => {
            proof {
                assert(is_hovered_zone(zones@, bounds, b as int));
                let k = choose|k: int| is_hovered_zone(zones@, bounds, k);
                lemma_hovered_zone_unique(zones@, bounds, b as int, k);
            }
            Highlight { dragging: info.dragging, hovered: Some(zones[b].0) }
        },
        None => {
            proof {
                assert forall|k: int| !is_hovered_zone(zones@, bounds, k) by {
                    if 0 <= k < zones@.len() {
                        assert(zones@[k].1.overlap_area(bounds) <= 0);
                    }
                }
            }
            Highlight { dragging: info.dragging, hovered: None }
        },
    }
}

/// The state after a drop or a cancelled drag: nothing dragged, nothing
/// hovered.
pub fn dropped() -> (next: Highlight)
    ensures
        next == idle(),
{
    Highlight { dragging: None, hovered: None }
}

/// Whether the element at `loc` has just become the dragged one: the new
/// state drags it and the old state did not.
pub open spec fn drag_began(old_info: Highlight, new_info: Highlight, loc: TreeLocation) -> bool {
    &&& new_info.dragging is Some
    &&& new_info.dragging->Some_0.0 == loc
    &&& !(old_info.dragging is Some && old_info.dragging->Some_0.0 == loc)
}

/// Whether the mark of the element at `loc` has to be set anew because the
/// element has just become the dragged one.
pub fn should_update_droppable(old_info: &Highlight, new_info: &Highlight, loc: &TreeLocation) -> (update:
    bool)
    ensures
        update == drag_began(*old_info, *new_info, *loc),
{
    match new_info.dragging {
        Some((now, _)) => {
            if now == *loc {
                match old_info.dragging {
                    Some((before, _)) => !(before == *loc),
                    None => true,
                }
            } else {
                false
            }
        },
        None => false,
    }
}

/// How a change of the hovered zone is answered.
#[derive(Clone, Copy, Debug, PartialEq, Eq, Structural)]
pub enum ZoneUpdate {
    /// A zone is no longer hovered: its mark goes.
    RemoveHighlight,
    /// A zone is newly hovered: it gets the mark.
    Highlight,
    /// Another zone is hovered than before: the mark moves, and the dragged
    /// list changes places with the list of the new zone.
    Replace,
    /// The hovered zone is the same as before.
    Ignore,
}

/// The answer to a change from one state to the next.
pub open spec fn zone_change(old_info: Highlight, new_info: Highlight) -> ZoneUpdate {
    match (old_info.hovered, new_info.hovered) {
        (Some(before), Some(now)) => if before == now {
            ZoneUpdate::Ignore
        } else {
            ZoneUpdate::Replace
        },
        (Some(_), None) => ZoneUpdate::RemoveHighlight,
        (None, Some(_)) => ZoneUpdate::Highlight,
        (None, None) => ZoneUpdate::Ignore,
    }
}

/// Decides how a change of the hovered zone is answered.
pub fn zone_update(old_info: &Highlight, new_info: &Highlight) -> (update: ZoneUpdate)
    ensures
        update == zone_change(*old_info, *new_info),
{
    match old_info.hovered {
        Some(before) => match new_info.hovered {
            Some(now) => if before == now {
                ZoneUpdate::Ignore
            } else {
                ZoneUpdate::Replace
            },
            None => ZoneUpdate::RemoveHighlight,
        },
        None => match new_info.hovered {
            Some(_) => ZoneUpdate::Highlight,
            None => ZoneUpdate::Ignore,
        },
    }
}

/// A tree with the mark of the slot of `zone` set to `mark`, if there is a
/// zone.
pub open spec fn zone_marked(tree: Seq<SlotView>, zone: Option<TreeLocation>, mark: bool) -> Seq<
    SlotView,
> {
    match zone {
        Some(loc) => tree.update(
            loc.slot as int,
            SlotView { highlight: mark, ..tree[loc.slot as int] },
        ),
        None => tree,
    }
}

impl ZoneUpdate {
    /// The zone that loses its mark under this answer.
    pub open spec fn unmarks(self, old_info: Highlight) -> Option<TreeLocation> {
        match self {
            ZoneUpdate::RemoveHighlight | ZoneUpdate::Replace => old_info.hovered,
            _ => None,
        }
    }

    /// The zone that gains the mark under this answer.
    pub open spec fn marks(self, new_info: Highlight) -> Option<TreeLocation> {
        match self {
            ZoneUpdate::Highlight | ZoneUpdate::Replace => new_info.hovered,
            _ => None,
        }
    }

    /// The tree after this answer was carried out on it.
    pub open spec fn applied(self, tree: Seq<SlotView>, old_info: Highlight, new_info: Highlight) -> Seq<
        SlotView,
    > {
        zone_marked(zone_marked(tree, self.unmarks(old_info), false), self.marks(new_info), true)
    }

    /// Whether the zones that this answer touches lie in a tree of `len`
    /// slots.
    pub open spec fn fits(self, len: nat, old_info: Highlight, new_info: Highlight) -> bool {
        &&& self.unmarks(old_info) is Some ==> self.unmarks(old_info)->Some_0.slot < len
        &&& self.marks(new_info) is Some ==> self.marks(new_info)->Some_0.slot < len
    }

    /// Carries the answer out on the tree: the zone hovered before loses its
    /// mark, the zone hovered now gains it, as the answer says.
    pub fn update(&self, tree: &mut TreeData, old_info: &Highlight, new_info: &Highlight)
        requires
            self.fits(old(tree)@.len(), *old_info, *new_info),
        ensures
            final(tree)@ == self.applied(old(tree)@, *old_info, *new_info),
    {
        match self {
            ZoneUpdate::RemoveHighlight => {
                if let Some(before) = old_info.hovered {
                    tree.slot_mut(before.slot).set_highlight(false);
                }
            },
            ZoneUpdate::Highlight => {
                if let Some(now) = new_info.hovered {
                    tree.slot_mut(now.slot).set_highlight(true);
                }
            },
            ZoneUpdate::Replace => {
                if let Some(before) = old_info.hovered {
                    tree.slot_mut(before.slot).set_highlight(false);
                }
                if let Some(now) = new_info.hovered {
                    tree.slot_mut(now.slot).set_highlight(true);
                }
            },
            ZoneUpdate::Ignore => {},
        }
    }
}

} // verus!
