//! Window geometry as the display server reports and accepts it.

use vstd::prelude::*;

verus! {

/// Position and size of a window on the display.
#[derive(Clone, Copy, PartialEq, Eq, Structural, Debug)]
pub struct Geometry {
    pub x: i32,
    pub y: i32,
    pub width: u32,
    pub height: u32,
}

/// A coordinate the wire protocol can carry: a signed 16-bit value.
pub open spec fn coord_in_range(c: int) -> bool {
    -32768 <= c && c <= 32767
}

/// A width or height the wire protocol can carry: positive, at most 16 bits.
pub open spec fn dim_in_range(d: int) -> bool {
    1 <= d && d <= 65535
}

impl Geometry {
    /// The geometry is one the server could actually have reported:
    /// coordinates and sizes within protocol range, sizes positive.
    pub open spec fn wf(self) -> bool {
        &&& coord_in_range(self.x as int)
        &&& coord_in_range(self.y as int)
        &&& dim_in_range(self.width as int)
        &&& dim_in_range(self.height as int)
    }

    /// Executable check for `wf`.
    pub fn is_wf(&self) -> (r: bool)
        ensures
            r == self.wf(),
    {
        -32768 <= self.x && self.x <= 32767 && -32768 <= self.y && self.y <= 32767
            && 1 <= self.width && self.width <= 65535 && 1 <= self.height
            && self.height <= 65535
    }
}

} // verus!
