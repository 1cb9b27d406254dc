use playground_state::highlight::Bounds;
use playground_state::todo_board::{map_zones, move_list_to_zone, Command, Message, TodoBoard};
use playground_state::tree::{
    IdArena, List, Slot, TreeData, TreeElement, TreeLocation, WidgetId,
};

fn rect(x: i32, y: i32, width: u32, height: u32) -> Bounds {
    Bounds { x, y, width, height }
}

fn list(i: usize) -> TreeLocation {
    TreeLocation::new(i, TreeElement::List)
}

fn slot(i: usize) -> TreeLocation {
    TreeLocation::new(i, TreeElement::Slot)
}

fn titles(board: &TodoBoard) -> Vec<String> {
    let tree = board.tree();
    (0..tree.len())
        .map(|i| tree.slot(i).list().title().to_string())
        .collect()
}

fn marks(board: &TodoBoard) -> Vec<bool> {
    let tree = board.tree();
    (0..tree.len()).map(|i| tree.slot(i).is_highlighted()).collect()
}

fn marked_lists(board: &TodoBoard) -> usize {
    let tree = board.tree();
    (0..tree.len())
        .filter(|i| tree.slot(*i).list().is_highlighted())
        .count()
}

/// Six zones side by side, each 100 wide and 300 high.
fn zone(i: usize) -> (WidgetId, Bounds) {
    (WidgetId::Slot(i), rect(100 * i as i32, 0, 100, 300))
}

#[test]
fn default_board_has_six_lists() {
    let board = TodoBoard::default();
    assert_eq!(
        titles(&board),
        vec![
            "Perp Risk Metrics",
            "Perp Performance Metrics",
            "Positions",
            "Open Orders",
            "Trade History",
            "Funding History"
        ]
    );
    let tree = board.tree();
    for i in 0..6 {
        assert_eq!(tree.slot(i).id(), WidgetId::Slot(i));
        assert_eq!(tree.slot(i).list().id(), WidgetId::List(i));
    }
    assert_eq!(marks(&board), vec![false; 6]);
    assert_eq!(marked_lists(&board), 0);
    assert_eq!(board.lists_highlight().dragging, None);
    assert_eq!(board.lists_highlight().hovered, None);
}

#[test]
fn drag_asks_for_the_zones_under_the_list() {
    let mut board = TodoBoard::default();
    let command = board.update(Message::DragList(list(2), rect(210, 10, 80, 50)));
    match command {
        Command::FindZones { bounds, options } => {
            assert_eq!(bounds, rect(210, 10, 80, 50));
            assert_eq!(
                options,
                (0..6).map(WidgetId::Slot).collect::<Vec<_>>()
            );
        }
        other => panic!("unexpected {:?}", other),
    }
    assert_eq!(
        board.lists_highlight().dragging,
        Some((list(2), rect(210, 10, 80, 50)))
    );
    assert_eq!(board.lists_highlight().hovered, None);
    assert_eq!(marks(&board), vec![false; 6]);
}

#[test]
fn first_zone_is_marked_without_a_swap() {
    let mut board = TodoBoard::default();
    board.update(Message::DragList(list(2), rect(210, 10, 80, 50)));
    let command = board.update(Message::HandleListZones(vec![zone(2)]));
    assert!(matches!(command, Command::Nothing));
    assert_eq!(board.lists_highlight().hovered, Some(slot(2)));
    assert_eq!(marks(&board), vec![false, false, true, false, false, false]);
    assert_eq!(titles(&board)[2], "Positions");
}

#[test]
fn same_zone_again_changes_nothing() {
    let mut board = TodoBoard::default();
    board.update(Message::DragList(list(2), rect(210, 10, 80, 50)));
    board.update(Message::HandleListZones(vec![zone(2)]));
    board.update(Message::DragList(list(2), rect(215, 10, 80, 50)));
    let command = board.update(Message::HandleListZones(vec![zone(2), zone(3)]));
    assert!(matches!(command, Command::Nothing));
    assert_eq!(board.lists_highlight().hovered, Some(slot(2)));
    assert_eq!(marks(&board), vec![false, false, true, false, false, false]);
}

#[test]
fn new_zone_moves_the_mark_and_swaps_the_lists() {
    let mut board = TodoBoard::default();
    board.update(Message::DragList(list(2), rect(210, 10, 80, 50)));
    board.update(Message::HandleListZones(vec![zone(2)]));
    board.update(Message::DragList(list(2), rect(280, 10, 80, 50)));
    let command = board.update(Message::HandleListZones(vec![zone(2), zone(3)]));
    assert!(matches!(
        command,
        Command::SwapStates(WidgetId::List(2), WidgetId::List(3))
    ));
    assert_eq!(board.lists_highlight().hovered, Some(slot(3)));
    assert_eq!(marks(&board), vec![false, false, false, true, false, false]);
    assert_eq!(
        titles(&board),
        vec![
            "Perp Risk Metrics",
            "Perp Performance Metrics",
            "Open Orders",
            "Positions",
            "Trade History",
            "Funding History"
        ]
    );
    assert_eq!(board.tree().slot(2).id(), WidgetId::Slot(2));
    assert_eq!(board.tree().slot(3).list().id(), WidgetId::List(2));
}

#[test]
fn leaving_every_zone_removes_the_mark() {
    let mut board = TodoBoard::default();
    board.update(Message::DragList(list(1), rect(110, 10, 80, 50)));
    board.update(Message::HandleListZones(vec![zone(1)]));
    board.update(Message::DragList(list(1), rect(110, 400, 80, 50)));
    let command = board.update(Message::HandleListZones(Vec::new()));
    assert!(matches!(command, Command::Nothing));
    assert_eq!(board.lists_highlight().hovered, None);
    assert_eq!(marks(&board), vec![false; 6]);
    assert!(board.lists_highlight().dragging.is_some());
}

#[test]
fn unknown_zones_are_left_out() {
    let mut board = TodoBoard::default();
    board.update(Message::DragList(list(0), rect(0, 0, 100, 100)));
    let command = board.update(Message::HandleListZones(vec![
        (WidgetId::Slot(17), rect(0, 0, 100, 100)),
        (WidgetId::Slot(1), rect(90, 0, 100, 100)),
    ]));
    assert!(matches!(command, Command::Nothing));
    assert_eq!(board.lists_highlight().hovered, Some(slot(1)));
    assert_eq!(marks(&board), vec![false, true, false, false, false, false]);
}

#[test]
fn zones_without_a_drag_mark_nothing() {
    let mut board = TodoBoard::default();
    let command = board.update(Message::HandleListZones(vec![zone(0), zone(1)]));
    assert!(matches!(command, Command::Nothing));
    assert_eq!(board.lists_highlight().hovered, None);
    assert_eq!(marks(&board), vec![false; 6]);
}

#[test]
fn drop_clears_marks_and_gesture() {
    let mut board = TodoBoard::default();
    board.update(Message::DragList(list(4), rect(410, 10, 80, 50)));
    board.update(Message::HandleListZones(vec![zone(4)]));
    assert_eq!(marks(&board)[4], true);
    let command = board.update(Message::DropList(list(4)));
    assert!(matches!(command, Command::Nothing));
    assert_eq!(marks(&board), vec![false; 6]);
    assert_eq!(marked_lists(&board), 0);
    assert_eq!(board.lists_highlight().dragging, None);
    assert_eq!(board.lists_highlight().hovered, None);
}

#[test]
fn cancel_clears_marks_and_gesture() {
    let mut board = TodoBoard::default();
    board.update(Message::DragList(list(0), rect(10, 10, 80, 50)));
    board.update(Message::HandleListZones(vec![zone(0)]));
    board.update(Message::DragList(list(0), rect(510, 10, 80, 50)));
    board.update(Message::HandleListZones(vec![zone(5)]));
    assert_eq!(marks(&board), vec![false, false, false, false, false, true]);
    let command = board.update(Message::ListDropCanceled);
    assert!(matches!(command, Command::Nothing));
    assert_eq!(marks(&board), vec![false; 6]);
    assert_eq!(marked_lists(&board), 0);
    assert_eq!(board.lists_highlight().dragging, None);
    assert_eq!(board.lists_highlight().hovered, None);
}

#[test]
fn cancel_without_a_drag_changes_nothing() {
    let mut board = TodoBoard::default();
    let command = board.update(Message::ListDropCanceled);
    assert!(matches!(command, Command::Nothing));
    assert_eq!(marks(&board), vec![false; 6]);
    assert_eq!(titles(&board).len(), 6);
}

#[test]
fn at_most_one_slot_is_marked_throughout_a_gesture() {
    let mut board = TodoBoard::default();
    let path = [0usize, 1, 1, 3, 2, 5, 0];
    for (step, target) in path.iter().enumerate() {
        board.update(Message::DragList(
            list(0),
            rect(100 * *target as i32 + 10, 10, 80, 50),
        ));
        board.update(Message::HandleListZones(vec![zone(*target)]));
        let marked = marks(&board).iter().filter(|mark| **mark).count();
        assert_eq!(marked, 1, "step {}", step);
        assert_eq!(marks(&board)[*target], true);
        assert_eq!(marked_lists(&board), 0);
    }
    board.update(Message::DropList(list(0)));
    assert_eq!(marks(&board), vec![false; 6]);
}

#[test]
fn map_zones_keeps_known_zones_in_order() {
    let mut ids = IdArena::new();
    let mut slots = Vec::new();
    for title in ["a", "b"] {
        let list = List::new(title, &mut ids);
        slots.push(Slot::new(list, &mut ids));
    }
    let tree = TreeData::new(slots);
    let found = map_zones(
        &tree,
        vec![
            (WidgetId::List(1), rect(1, 1, 1, 1)),
            (WidgetId::Slot(5), rect(2, 2, 2, 2)),
            (WidgetId::Slot(0), rect(3, 3, 3, 3)),
            (WidgetId::List(1), rect(4, 4, 4, 4)),
        ],
    );
    assert_eq!(
        found,
        vec![
            (list(1), rect(1, 1, 1, 1)),
            (slot(0), rect(3, 3, 3, 3)),
            (list(1), rect(4, 4, 4, 4)),
        ]
    );
    assert!(map_zones(&tree, Vec::new()).is_empty());
}

#[test]
fn move_list_to_zone_swaps_and_names_both_lists() {
    let mut ids = IdArena::new();
    let mut slots = Vec::new();
    for title in ["a", "b", "c"] {
        let list = List::new(title, &mut ids);
        slots.push(Slot::new(list, &mut ids));
    }
    let mut tree = TreeData::new(slots);
    let command = move_list_to_zone(&mut tree, &list(0), &slot(2));
    assert!(matches!(
        command,
        Command::SwapStates(WidgetId::List(0), WidgetId::List(2))
    ));
    assert_eq!(tree.slot(0).list().title(), "c");
    assert_eq!(tree.slot(2).list().title(), "a");
    assert_eq!(tree.slot(1).list().title(), "b");
    let command = move_list_to_zone(&mut tree, &list(1), &slot(1));
    assert!(matches!(
        command,
        Command::SwapStates(WidgetId::List(1), WidgetId::List(1))
    ));
    assert_eq!(tree.slot(1).list().title(), "b");
}
