//! State bookkeeping for a set of small desktop interfaces: a board of
//! draggable lists, a pane grid, a reorderable item column, a window that
//! moves between screens, a grocery list and a counter. Everything here is
//! plain data with proved contracts; the widgets that draw it live
//! elsewhere.

pub mod counter;
pub mod dashboard;
pub mod grocery;
pub mod highlight;
pub mod navigation;
pub mod pane_app;
pub mod panes;
pub mod todo_board;
pub mod tree;
