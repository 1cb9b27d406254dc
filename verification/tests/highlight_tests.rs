use playground_state::highlight::{
    dragged, dropped, should_update_droppable, zone_update, zones_found, Bounds, Highlight,
    ZoneUpdate,
};
use playground_state::tree::{IdArena, List, Slot, TreeData, TreeElement, TreeLocation};

fn rect(x: i32, y: i32, width: u32, height: u32) -> Bounds {
    Bounds { x, y, width, height }
}

fn slot(i: usize) -> TreeLocation {
    TreeLocation::new(i, TreeElement::Slot)
}

fn list(i: usize) -> TreeLocation {
    TreeLocation::new(i, TreeElement::List)
}

fn tree_of(n: usize) -> TreeData {
    let mut ids = IdArena::new();
    let mut slots = Vec::new();
    for _ in 0..n {
        let list = List::new("list", &mut ids);
        slots.push(Slot::new(list, &mut ids));
    }
    TreeData::new(slots)
}

fn marks(tree: &TreeData) -> Vec<bool> {
    (0..tree.len()).map(|i| tree.slot(i).is_highlighted()).collect()
}

#[test]
fn overlap_is_the_shared_area() {
    let a = rect(0, 0, 10, 10);
    assert_eq!(a.overlap(&rect(5, 5, 10, 10)), 25);
    assert_eq!(a.overlap(&rect(0, 0, 8, 8)), 64);
    assert_eq!(a.overlap(&a), 100);
    assert_eq!(a.overlap(&rect(-5, 2, 7, 3)), 6);
    assert_eq!(rect(2, 3, 4, 5).overlap(&rect(0, 0, 100, 100)), 20);
    assert_eq!(rect(5, 5, 10, 10).overlap(&a), 25);
}

#[test]
fn rectangles_that_only_touch_share_nothing() {
    let a = rect(0, 0, 10, 10);
    assert_eq!(a.overlap(&rect(10, 0, 10, 10)), 0);
    assert_eq!(a.overlap(&rect(0, 10, 10, 10)), 0);
    assert_eq!(a.overlap(&rect(20, 20, 5, 5)), 0);
    assert_eq!(a.overlap(&rect(3, 3, 0, 4)), 0);
    assert!(!a.intersects(&rect(10, 0, 10, 10)));
    assert!(!a.intersects(&rect(-10, -10, 10, 10)));
    assert!(a.intersects(&rect(9, 9, 1, 1)));
    assert!(a.intersects(&rect(-1, -1, 2, 2)));
}

#[test]
fn overlap_holds_at_the_limits() {
    let whole = rect(i32::MIN, i32::MIN, u32::MAX, u32::MAX);
    assert_eq!(
        whole.overlap(&whole),
        (u32::MAX as u64) * (u32::MAX as u64)
    );
    let far = rect(i32::MAX, i32::MAX, u32::MAX, u32::MAX);
    assert_eq!(whole.overlap(&far), 0);
    assert_eq!(far.overlap(&far), (u32::MAX as u64) * (u32::MAX as u64));
    assert!(!whole.intersects(&far));
}

#[test]
fn idle_highlight_holds_nothing() {
    let info = Highlight::default();
    assert_eq!(info.dragging, None);
    assert_eq!(info.hovered, None);
    let info = dropped();
    assert_eq!(info.dragging, None);
    assert_eq!(info.hovered, None);
}

#[test]
fn dragged_notes_the_drag_and_keeps_the_hover() {
    let before = Highlight { dragging: None, hovered: Some(slot(2)) };
    let after = dragged(&before, list(1), rect(1, 2, 3, 4));
    assert_eq!(after.dragging, Some((list(1), rect(1, 2, 3, 4))));
    assert_eq!(after.hovered, Some(slot(2)));
}

#[test]
fn zones_found_picks_the_widest_overlap() {
    let info = dragged(&Highlight::default(), list(0), rect(0, 0, 10, 10));
    let zones = vec![
        (slot(0), rect(5, 5, 10, 10)),
        (slot(1), rect(0, 0, 8, 8)),
        (slot(2), rect(9, 9, 5, 5)),
    ];
    let next = zones_found(&info, &zones);
    assert_eq!(next.hovered, Some(slot(1)));
    assert_eq!(next.dragging, info.dragging);
}

#[test]
fn zones_found_takes_the_first_of_equal_overlaps() {
    let info = dragged(&Highlight::default(), list(0), rect(0, 0, 10, 10));
    let zones = vec![
        (slot(3), rect(0, 0, 2, 2)),
        (slot(1), rect(0, 0, 5, 5)),
        (slot(2), rect(5, 5, 5, 5)),
    ];
    assert_eq!(zones_found(&info, &zones).hovered, Some(slot(1)));
}

#[test]
fn zones_found_needs_an_overlap_and_a_drag() {
    let info = dragged(&Highlight::default(), list(0), rect(0, 0, 10, 10));
    let apart = vec![(slot(0), rect(10, 0, 10, 10)), (slot(1), rect(50, 50, 1, 1))];
    assert_eq!(zones_found(&info, &apart).hovered, None);
    assert_eq!(zones_found(&info, &Vec::new()).hovered, None);
    let hovering = Highlight { dragging: info.dragging, hovered: Some(slot(1)) };
    assert_eq!(zones_found(&hovering, &apart).hovered, None);
    let no_drag = Highlight { dragging: None, hovered: Some(slot(1)) };
    let under = vec![(slot(0), rect(0, 0, 10, 10))];
    let next = zones_found(&no_drag, &under);
    assert_eq!(next.hovered, None);
    assert_eq!(next.dragging, None);
}

#[test]
fn droppable_is_updated_when_its_drag_begins() {
    let idle = Highlight::default();
    let first = dragged(&idle, list(1), rect(0, 0, 1, 1));
    assert!(should_update_droppable(&idle, &first, &list(1)));
    assert!(!should_update_droppable(&idle, &first, &list(2)));
    let moved = dragged(&first, list(1), rect(5, 5, 1, 1));
    assert!(!should_update_droppable(&first, &moved, &list(1)));
    let other = dragged(&first, list(2), rect(5, 5, 1, 1));
    assert!(should_update_droppable(&first, &other, &list(2)));
    assert!(!should_update_droppable(&first, &other, &list(1)));
    assert!(!should_update_droppable(&first, &idle, &list(1)));
}

#[test]
fn zone_update_follows_the_hovered_zone() {
    let on = |zone: Option<TreeLocation>| Highlight {
        dragging: Some((list(0), rect(0, 0, 1, 1))),
        hovered: zone,
    };
    assert_eq!(zone_update(&on(None), &on(None)), ZoneUpdate::Ignore);
    assert_eq!(zone_update(&on(None), &on(Some(slot(1)))), ZoneUpdate::Highlight);
    assert_eq!(
        zone_update(&on(Some(slot(1))), &on(None)),
        ZoneUpdate::RemoveHighlight
    );
    assert_eq!(
        zone_update(&on(Some(slot(1))), &on(Some(slot(1)))),
        ZoneUpdate::Ignore
    );
    assert_eq!(
        zone_update(&on(Some(slot(1))), &on(Some(slot(2)))),
        ZoneUpdate::Replace
    );
    assert_eq!(
        zone_update(&on(Some(slot(1))), &on(Some(list(1)))),
        ZoneUpdate::Replace
    );
}

#[test]
fn zone_update_is_carried_out_on_the_tree() {
    let on = |zone: Option<TreeLocation>| Highlight {
        dragging: Some((list(0), rect(0, 0, 1, 1))),
        hovered: zone,
    };
    let mut tree = tree_of(3);
    ZoneUpdate::Highlight.update(&mut tree, &on(None), &on(Some(slot(1))));
    assert_eq!(marks(&tree), vec![false, true, false]);
    ZoneUpdate::Ignore.update(&mut tree, &on(Some(slot(1))), &on(Some(slot(1))));
    assert_eq!(marks(&tree), vec![false, true, false]);
    ZoneUpdate::Replace.update(&mut tree, &on(Some(slot(1))), &on(Some(slot(2))));
    assert_eq!(marks(&tree), vec![false, false, true]);
    ZoneUpdate::Replace.update(&mut tree, &on(Some(slot(2))), &on(Some(list(2))));
    assert_eq!(marks(&tree), vec![false, false, true]);
    ZoneUpdate::RemoveHighlight.update(&mut tree, &on(Some(slot(2))), &on(None));
    assert_eq!(marks(&tree), vec![false, false, false]);
    ZoneUpdate::RemoveHighlight.update(&mut tree, &on(None), &on(None));
    ZoneUpdate::Highlight.update(&mut tree, &on(None), &on(None));
    assert_eq!(marks(&tree), vec![false, false, false]);
}
