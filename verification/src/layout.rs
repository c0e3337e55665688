//! The main window's geometry: its first size, and where the dividers of
//! the two sidebars stand.
use vstd::prelude::*;

verus! {

/// The window's width when no size is saved.
pub const DEFAULT_WINDOW_WIDTH: i32 = 1200;

/// The window's height when no size is saved.
pub const DEFAULT_WINDOW_HEIGHT: i32 = 700;

/// The window's first size: the saved one, else the default.
pub fn initial_window_size(saved: Option<(i32, i32)>) -> (r: (i32, i32))
    ensures
        r == (match saved {
            Some(size) => size,
            None => (DEFAULT_WINDOW_WIDTH, DEFAULT_WINDOW_HEIGHT),
        }),
{
    match saved {
        Some(size) => size,
        None => (DEFAULT_WINDOW_WIDTH, DEFAULT_WINDOW_HEIGHT),
    }
}

/// The window edge a sidebar sits at.
#[derive(Debug, Clone, Copy, PartialEq, Eq, Structural)]
pub enum SidebarEdge {
    Start,
    End,
}

/// `x`, or 0 when it is negative.
pub open spec fn at_least_zero(x: int) -> int {
    if x < 0 {
        0
    } else {
        x
    }
}

/// Where a divider stands for a sidebar at `edge` that is `open` (or not)
/// and `width` wide, in a pane `total` wide: a start sidebar's width is the
/// divider's position; an end sidebar's is what lies past it.
pub open spec fn divider_for(edge: SidebarEdge, open: bool, width: int, total: int) -> int {
    match edge {
        SidebarEdge::Start => if open {
            width
        } else {
            0
        },
        SidebarEdge::End => if open {
            at_least_zero(total - width)
        } else {
            total
        },
    }
}

/// The divider position of a sidebar at `edge`, open or closed, `width`
/// wide in a pane `total` wide.
pub fn divider_position(edge: SidebarEdge, open: bool, width: i32, total: i32) -> (r: i32)
    requires
        edge == SidebarEdge::End && open ==> i32::MIN <= total - width <= i32::MAX,
    ensures
        r == divider_for(edge, open, width as int, total as int),
{
    match edge {
        SidebarEdge::Start => if open {
            width
        } else {
            0
        },
        SidebarEdge::End => if open {
            let w = total - width;
            if w < 0 {
                0
            } else {
                w
            }
        } else {
            total
        },
    }
}

/// The width a sidebar at `edge` has once its divider is dragged to
/// `position` in a pane `total` wide; `None` when that width is not
/// positive, which is never saved.
pub fn dragged_width(edge: SidebarEdge, position: i32, total: i32) -> (r: Option<i32>)
    requires
        edge == SidebarEdge::End ==> i32::MIN <= total - position <= i32::MAX,
    ensures
        ({
            let w = match edge {
                SidebarEdge::Start => position as int,
                SidebarEdge::End => total - position,
            };
            r == (if w > 0 {
                Some(w as i32)
            } else {
                None::<i32>
            })
        }),
{
    let w = match edge {
        SidebarEdge::Start => position,
        SidebarEdge::End => total - position,
    };
    if w > 0 {
        Some(w)
    } else {
        None
    }
}

/// The first divider positions of the start and end sidebars, before the
/// window has a real width: the end divider is estimated from the window's
/// first width less the start sidebar, when that is open.
pub open spec fn initial_dividers_of(
    window_width: int,
    start_open: bool,
    start_width: int,
    end_open: bool,
    end_width: int,
) -> (int, int) {
    let content = window_width - if start_open {
        start_width
    } else {
        0
    };
    (
        divider_for(SidebarEdge::Start, start_open, start_width, window_width),
        divider_for(SidebarEdge::End, end_open, end_width, content),
    )
}

/// The first positions of the start and end sidebars' dividers.
pub fn initial_dividers(
    window_width: i32,
    start_open: bool,
    start_width: i32,
    end_open: bool,
    end_width: i32,
) -> (r: (i32, i32))
    requires
        start_open ==> i32::MIN <= window_width - start_width <= i32::MAX,
        end_open ==> i32::MIN <= (window_width - if start_open {
            start_width as int
        } else {
            0
        }) - end_width <= i32::MAX,
    ensures
        (r.0 as int, r.1 as int) == initial_dividers_of(
            window_width as int,
            start_open,
            start_width as int,
            end_open,
            end_width as int,
        ),
{
    let content: i32 = if start_open {
        window_width - start_width
    } else {
        window_width
    };
    let start = divider_position(SidebarEdge::Start, start_open, start_width, window_width);
    let end = divider_position(SidebarEdge::End, end_open, end_width, content);
    (start, end)
}

} // verus!
