//! Resize hit testing for borderless windows.

use wry::window::{cursor_for_edge, hit_test, ResizeCursor, WindowEdge};

// a 100x80 window at (10, 20): edges at x = 10/110, y = 20/100

#[test]
fn pointer_in_the_interior_hits_no_edge() {
    assert_eq!(hit_test(10, 20, 100, 80, 60, 60), WindowEdge::NoEdge);
}

#[test]
fn pointer_near_each_edge() {
    assert_eq!(hit_test(10, 20, 100, 80, 12, 60), WindowEdge::West);
    assert_eq!(hit_test(10, 20, 100, 80, 108, 60), WindowEdge::East);
    assert_eq!(hit_test(10, 20, 100, 80, 60, 22), WindowEdge::North);
    assert_eq!(hit_test(10, 20, 100, 80, 60, 98), WindowEdge::South);
}

#[test]
fn pointer_near_each_corner() {
    assert_eq!(hit_test(10, 20, 100, 80, 12, 22), WindowEdge::NorthWest);
    assert_eq!(hit_test(10, 20, 100, 80, 108, 22), WindowEdge::NorthEast);
    assert_eq!(hit_test(10, 20, 100, 80, 12, 98), WindowEdge::SouthWest);
    assert_eq!(hit_test(10, 20, 100, 80, 108, 98), WindowEdge::SouthEast);
}

#[test]
fn border_is_five_pixels() {
    // x = 14 is the last column of the west border, x = 15 the first
    // interior one
    assert_eq!(hit_test(10, 20, 100, 80, 14, 60), WindowEdge::West);
    assert_eq!(hit_test(10, 20, 100, 80, 15, 60), WindowEdge::NoEdge);
}

#[test]
fn tiny_window_selects_no_edge() {
    // opposite borders overlap: no single edge can be meant
    assert_eq!(hit_test(10, 20, 8, 80, 14, 60), WindowEdge::NoEdge);
}

#[test]
fn negative_coordinates_are_handled() {
    assert_eq!(hit_test(-200, -100, 100, 80, -198, -60), WindowEdge::West);
}

#[test]
fn cursors_match_their_edges() {
    assert_eq!(cursor_for_edge(WindowEdge::North), ResizeCursor::SbVDoubleArrow);
    assert_eq!(cursor_for_edge(WindowEdge::South), ResizeCursor::SbVDoubleArrow);
    assert_eq!(cursor_for_edge(WindowEdge::East), ResizeCursor::SbHDoubleArrow);
    assert_eq!(cursor_for_edge(WindowEdge::West), ResizeCursor::SbHDoubleArrow);
    assert_eq!(cursor_for_edge(WindowEdge::NorthWest), ResizeCursor::TopLeftCorner);
    assert_eq!(cursor_for_edge(WindowEdge::NorthEast), ResizeCursor::TopRightCorner);
    assert_eq!(cursor_for_edge(WindowEdge::SouthEast), ResizeCursor::BottomRightCorner);
    assert_eq!(cursor_for_edge(WindowEdge::SouthWest), ResizeCursor::BottomLeftCorner);
    assert_eq!(cursor_for_edge(WindowEdge::NoEdge), ResizeCursor::LeftPtr);
}
