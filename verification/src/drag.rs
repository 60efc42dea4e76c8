//! The interactive drag controller: a short-lived state machine entered on a
//! button press over a managed frame and left on button release.
//!
//! Every field of a live drag is fixed at creation; each compressed motion
//! sample only derives a new target geometry from the start geometry and the
//! cursor delta.  A resize never asks the server for a degenerate size: both
//! dimensions are clamped to a configured positive minimum.

use vstd::prelude::*;

use crate::geom::Geometry;

verus! {

/// What a drag does to the window: reposition it or resize it.
#[derive(Clone, Copy, PartialEq, Eq, Structural, Debug)]
pub enum DragKind {
    Move,
    Resize,
}

/// The state captured when a qualifying button press starts a drag.
#[derive(Clone, Copy, PartialEq, Eq, Structural, Debug)]
pub struct DragState {
    /// The decorating frame being dragged.
    pub frame: u64,
    /// Move or resize.
    pub kind: DragKind,
    /// Cursor position (root coordinates) at the button press.
    pub start_cursor_x: i32,
    pub start_cursor_y: i32,
    /// Geometry of the frame at the button press.
    pub start_geometry: Geometry,
}

/// Which button and modifier combination starts which kind of drag.
/// A policy value supplied by configuration, not hard-coded.
#[derive(Clone, Copy, PartialEq, Eq, Structural, Debug)]
pub struct DragPolicy {
    pub move_button: u32,
    pub move_modifiers: u32,
    pub resize_button: u32,
    pub resize_modifiers: u32,
}

impl DragPolicy {
    /// The drag kind a button press starts: move when the move combination
    /// matches, else resize when the resize combination matches, else none.
    /// A combination matches when the button is the configured one and every
    /// configured modifier bit is held.
    pub open spec fn spec_classify(self, button: u32, modifiers: u32) -> Option<DragKind> {
        if button == self.move_button && modifiers & self.move_modifiers == self.move_modifiers {
            Some(DragKind::Move)
        } else if button == self.resize_button && modifiers & self.resize_modifiers
            == self.resize_modifiers {
            Some(DragKind::Resize)
        } else {
            None
        }
    }

    /// Executable form of `spec_classify`.
    pub fn classify(&self, button: u32, modifiers: u32) -> (r: Option<DragKind>)
        ensures
            r == self.spec_classify(button, modifiers),
    {
        if button == self.move_button && modifiers & self.move_modifiers == self.move_modifiers {
            Some(DragKind::Move)
        } else if button == self.resize_button && modifiers & self.resize_modifiers
            == self.resize_modifiers {
            Some(DragKind::Resize)
        } else {
            None
        }
    }
}

/// A value forced into the range of a signed 32-bit coordinate.
pub open spec fn sat_coord(v: int) -> int {
    if v < -2147483648 {
        -2147483648
    } else if v > 2147483647 {
        2147483647
    } else {
        v
    }
}

/// A size forced to be at least `min` and to fit an unsigned 32-bit value.
pub open spec fn clamp_dim(v: int, min: int) -> int {
    if v < min {
        min
    } else if v > 4294967295 {
        4294967295
    } else {
        v
    }
}

/// The geometry a drag asks the server for at cursor position `(cx, cy)`:
/// for a move, the start position shifted by the cursor delta; for a resize,
/// the start size grown by the cursor delta and clamped to the configured
/// minimum width and height.
pub open spec fn spec_drag_target(
    d: DragState,
    cx: int,
    cy: int,
    min_width: int,
    min_height: int,
) -> Geometry {
    let dx = cx - d.start_cursor_x;
    let dy = cy - d.start_cursor_y;
    match d.kind {
        DragKind::Move => Geometry {
            x: sat_coord(d.start_geometry.x + dx) as i32,
            y: sat_coord(d.start_geometry.y + dy) as i32,
            width: d.start_geometry.width,
            height: d.start_geometry.height,
        },
        DragKind::Resize => Geometry {
            x: d.start_geometry.x,
            y: d.start_geometry.y,
            width: clamp_dim(d.start_geometry.width + dx, min_width) as u32,
            height: clamp_dim(d.start_geometry.height + dy, min_height) as u32,
        },
    }
}

/// Compute the geometry a drag asks for at the cursor position `(cx, cy)`.
pub fn drag_target(d: &DragState, cx: i32, cy: i32, min_width: u32, min_height: u32) -> (g:
    Geometry)
    ensures
        g == spec_drag_target(*d, cx as int, cy as int, min_width as int, min_height as int),
{
    let dx: i64 = cx as i64 - d.start_cursor_x as i64;
    let dy: i64 = cy as i64 - d.start_cursor_y as i64;
    match d.kind {
        DragKind::Move => {
            let tx: i64 = d.start_geometry.x as i64 + dx;
            let ty: i64 = d.start_geometry.y as i64 + dy;
            Geometry {
                x: sat_coord_exec(tx),
                y: sat_coord_exec(ty),
                width: d.start_geometry.width,
                height: d.start_geometry.height,
            }
        },
        DragKind::Resize => {
            let tw: i64 = d.start_geometry.width as i64 + dx;
            let th: i64 = d.start_geometry.height as i64 + dy;
            Geometry {
                x: d.start_geometry.x,
                y: d.start_geometry.y,
                width: clamp_dim_exec(tw, min_width),
                height: clamp_dim_exec(th, min_height),
            }
        },
    }
}

/// Force a value into signed 32-bit range.
fn sat_coord_exec(v: i64) -> (r: i32)
    ensures
        r as int == sat_coord(v as int),
{
    if v < -2147483648 {
        -2147483648
    } else if v > 2147483647 {
        2147483647
    } else {
        v as i32
    }
}

/// Force a size to at least `min` and into unsigned 32-bit range.
fn clamp_dim_exec(v: i64, min: u32) -> (r: u32)
    ensures
        r as int == clamp_dim(v as int, min as int),
{
    if v < min as i64 {
        min
    } else if v > 4294967295 {
        4294967295
    } else {
        v as u32
    }
}

/// A resize drag never asks for a width or height below the configured
/// minimum, whatever the cursor delta — including deltas that would make the
/// size negative.
pub proof fn lemma_resize_respects_minimum(
    d: DragState,
    cx: int,
    cy: int,
    min_width: int,
    min_height: int,
)
    requires
        d.kind == DragKind::Resize,
        0 <= min_width <= 4294967295,
        0 <= min_height <= 4294967295,
    ensures
        spec_drag_target(d, cx, cy, min_width, min_height).width >= min_width,
        spec_drag_target(d, cx, cy, min_width, min_height).height >= min_height,
{
}

/// A move drag never changes the window's size: only its position follows
/// the cursor delta.
pub proof fn lemma_move_keeps_size(
    d: DragState,
    cx: int,
    cy: int,
    min_width: int,
    min_height: int,
)
    requires
        d.kind == DragKind::Move,
    ensures
        spec_drag_target(d, cx, cy, min_width, min_height).width == d.start_geometry.width,
        spec_drag_target(d, cx, cy, min_width, min_height).height == d.start_geometry.height,
{
}

} // verus!
