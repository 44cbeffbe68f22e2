//! Rectangular viewports ("ports") into the character grid.
//!
//! A port is a rectangle of cells with a uniform margin and a cursor. All
//! coordinates are absolute cell coordinates; the inner content area starts
//! one margin in from the origin on each side.

use vstd::prelude::*;

verus! {

/// A rectangular, marginned sub-region of the character grid with its own
/// cursor, used as a drawing target.
#[derive(Debug, Copy, Clone, PartialEq, Eq)]
pub struct Port {
    /// Top-left cell of the port.
    pub orgin: (u32, u32),
    /// Total width and height in cells, margins included.
    pub size: (u32, u32),
    /// Uniform border thickness in cells.
    pub margin: u32,
    /// Next write position, in absolute cell coordinates.
    pub cursor: (u32, u32),
}

impl Port {
    /// Geometric well-formedness: the margins fit inside the rectangle on
    /// both axes, and the far edge stays representable in cell coordinates.
    pub open spec fn wf(self) -> bool {
        &&& 2 * self.margin <= self.size.0
        &&& 2 * self.margin <= self.size.1
        &&& self.orgin.0 + self.size.0 <= u32::MAX
        &&& self.orgin.1 + self.size.1 <= u32::MAX
    }

    /// The horizontal bounds of the inner area: first column inside the left
    /// margin, and the column just past the right margin.
    pub open spec fn x_range_spec(self) -> (u32, u32) {
        (
            (self.orgin.0 + self.margin) as u32,
            (self.orgin.0 + self.size.0 - self.margin) as u32,
        )
    }

    /// The vertical bounds of the inner area, as `x_range_spec`.
    pub open spec fn y_range_spec(self) -> (u32, u32) {
        (
            (self.orgin.1 + self.margin) as u32,
            (self.orgin.1 + self.size.1 - self.margin) as u32,
        )
    }

    /// Size of the port minus one margin on each axis. Note the asymmetry:
    /// the margin is subtracted once here, while the range queries bound the
    /// inner area by a margin on both sides.
    pub fn get_drawable(&self) -> (r: (u32, u32))
        requires
            self.wf(),
        ensures
            r.0 == self.size.0 - self.margin,
            r.1 == self.size.1 - self.margin,
    {
        (self.size.0 - self.margin, self.size.1 - self.margin)
    }

    /// Minimum and maximum x of the inner area.
    pub fn get_x_range(&self) -> (r: (u32, u32))
        requires
            self.wf(),
        ensures
            r == self.x_range_spec(),
    {
        (self.orgin.0 + self.margin, self.orgin.0 + self.size.0 - self.margin)
    }

    /// Minimum and maximum y of the inner area.
    pub fn get_y_range(&self) -> (r: (u32, u32))
        requires
            self.wf(),
        ensures
            r == self.y_range_spec(),
    {
        (self.orgin.1 + self.margin, self.orgin.1 + self.size.1 - self.margin)
    }

    /// Moves the cursor to a position given relative to the inner area
    /// (origin plus margin); geometry is left untouched.
    pub fn set_c_inner(&mut self, x: u32, y: u32)
        requires
            old(self).orgin.0 + old(self).margin + x <= u32::MAX,
            old(self).orgin.1 + old(self).margin + y <= u32::MAX,
        ensures
            final(self).cursor.0 == old(self).orgin.0 + x + old(self).margin,
            final(self).cursor.1 == old(self).orgin.1 + y + old(self).margin,
            final(self).orgin == old(self).orgin,
            final(self).size == old(self).size,
            final(self).margin == old(self).margin,
    {
        self.cursor = (self.orgin.0 + x + self.margin, self.orgin.1 + y + self.margin);
    }
}

/// Both range queries span exactly the inner extent: for any well-formed
/// port the difference of the two bounds is the size minus twice the margin,
/// on each axis.
pub proof fn lemma_range_width(p: Port)
    requires
        p.wf(),
    ensures
        p.x_range_spec().1 - p.x_range_spec().0 == p.size.0 - 2 * p.margin,
        p.y_range_spec().1 - p.y_range_spec().0 == p.size.1 - 2 * p.margin,
{
}

} // verus!
