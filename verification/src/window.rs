//! Resize hit testing for borderless windows.
//!
//! A window drawn without decorations still needs resize handles: when
//! the pointer moves near an edge of the window the embedder must know
//! which resize drag to start and which cursor to show. The decision is
//! pure geometry on the window's position, its size and the pointer's
//! root coordinates; the embedder reads them from the windowing system
//! and performs the drag.

use vstd::prelude::*;

verus! {

/// How far inside the window, in pixels, an edge still counts for
/// resizing.
pub const FAKE_BORDER: i32 = 5;

/// The edge or corner of a window a pointer position falls on, if any.
#[derive(Debug, Clone, Copy, PartialEq, Eq, Structural)]
pub enum WindowEdge {
    West,
    North,
    East,
    South,
    NorthWest,
    NorthEast,
    SouthWest,
    SouthEast,
    /// The pointer is not near any edge (or the window is so small that
    /// opposite edges overlap and no single edge can be meant).
    NoEdge,
}

/// The cursor shown while the pointer is over a resize region.
#[derive(Debug, Clone, Copy, PartialEq, Eq, Structural)]
pub enum ResizeCursor {
    SbVDoubleArrow,
    SbHDoubleArrow,
    TopLeftCorner,
    TopRightCorner,
    BottomRightCorner,
    BottomLeftCorner,
    LeftPtr,
}

/// The edge a pointer at root position `(cx, cy)` falls on for a window
/// at `(left, top)` of size `width` by `height`: a coordinate within
/// [`FAKE_BORDER`] of an edge selects that edge, within reach of two
/// adjacent edges their corner, and a position near no edge — or near
/// opposite edges at once — selects none.
pub open spec fn hit_test_edge(left: int, top: int, width: int, height: int, cx: int, cy: int)
    -> WindowEdge {
    let near_left = cx < left + FAKE_BORDER;
    let near_right = cx >= left + width - FAKE_BORDER;
    let near_top = cy < top + FAKE_BORDER;
    let near_bottom = cy >= top + height - FAKE_BORDER;
    if near_left && !near_right && !near_top && !near_bottom {
        WindowEdge::West
    } else if near_top && !near_bottom && !near_left && !near_right {
        WindowEdge::North
    } else if near_right && !near_left && !near_top && !near_bottom {
        WindowEdge::East
    } else if near_bottom && !near_top && !near_left && !near_right {
        WindowEdge::South
    } else if near_top && near_left && !near_bottom && !near_right {
        WindowEdge::NorthWest
    } else if near_top && near_right && !near_bottom && !near_left {
        WindowEdge::NorthEast
    } else if near_bottom && near_left && !near_top && !near_right {
        WindowEdge::SouthWest
    } else if near_bottom && near_right && !near_top && !near_left {
        WindowEdge::SouthEast
    } else {
        WindowEdge::NoEdge
    }
}

/// Decide which edge of the window the pointer is on.
pub fn hit_test(left: i32, top: i32, width: i32, height: i32, cx: i32, cy: i32) -> (edge:
    WindowEdge)
    ensures
        edge == hit_test_edge(left as int, top as int, width as int, height as int, cx as int,
            cy as int),
{
    let border = FAKE_BORDER as i64;
    let near_left = (cx as i64) < (left as i64) + border;
    let near_right = (cx as i64) >= (left as i64) + (width as i64) - border;
    let near_top = (cy as i64) < (top as i64) + border;
    let near_bottom = (cy as i64) >= (top as i64) + (height as i64) - border;
    if near_left && !near_right && !near_top && !near_bottom {
        WindowEdge::West
    } else if near_top && !near_bottom && !near_left && !near_right {
        WindowEdge::North
    } else if near_right && !near_left && !near_top && !near_bottom {
        WindowEdge::East
    } else if near_bottom && !near_top && !near_left && !near_right {
        WindowEdge::South
    } else if near_top && near_left && !near_bottom && !near_right {
        WindowEdge::NorthWest
    } else if near_top && near_right && !near_bottom && !near_left {
        WindowEdge::NorthEast
    } else if near_bottom && near_left && !near_top && !near_right {
        WindowEdge::SouthWest
    } else if near_bottom && near_right && !near_top && !near_left {
        WindowEdge::SouthEast
    } else {
        WindowEdge::NoEdge
    }
}

/// The cursor belonging to each resize edge; away from every edge the
/// plain pointer is shown.
pub open spec fn cursor_for_edge_spec(edge: WindowEdge) -> ResizeCursor {
    match edge {
        WindowEdge::North => ResizeCursor::SbVDoubleArrow,
        WindowEdge::South => ResizeCursor::SbVDoubleArrow,
        WindowEdge::East => ResizeCursor::SbHDoubleArrow,
        WindowEdge::West => ResizeCursor::SbHDoubleArrow,
        WindowEdge::NorthWest => ResizeCursor::TopLeftCorner,
        WindowEdge::NorthEast => ResizeCursor::TopRightCorner,
        WindowEdge::SouthEast => ResizeCursor::BottomRightCorner,
        WindowEdge::SouthWest => ResizeCursor::BottomLeftCorner,
        WindowEdge::NoEdge => ResizeCursor::LeftPtr,
    }
}

/// Pick the cursor to show for the edge the pointer is on.
pub fn cursor_for_edge(edge: WindowEdge) -> (c: ResizeCursor)
    ensures
        c == cursor_for_edge_spec(edge),
{
    match edge {
        WindowEdge::North => ResizeCursor::SbVDoubleArrow,
        WindowEdge::South => ResizeCursor::SbVDoubleArrow,
        WindowEdge::East => ResizeCursor::SbHDoubleArrow,
        WindowEdge::West => ResizeCursor::SbHDoubleArrow,
        WindowEdge::NorthWest => ResizeCursor::TopLeftCorner,
        WindowEdge::NorthEast => ResizeCursor::TopRightCorner,
        WindowEdge::SouthEast => ResizeCursor::BottomRightCorner,
        WindowEdge::SouthWest => ResizeCursor::BottomLeftCorner,
        WindowEdge::NoEdge => ResizeCursor::LeftPtr,
    }
}

} // verus!
