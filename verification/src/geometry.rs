//! Axis-aligned rectangles and 2-D integer vectors in cell units.
//!
//! All arithmetic saturates: coordinates clamp at 0 and `u16::MAX` and never
//! wrap. A rectangle may be empty (zero width or height); corners are always
//! computed, never stored.

use vstd::prelude::*;

verus! {

/// Saturating addition on cell coordinates.
pub open spec fn sat_add(a: u16, b: u16) -> u16 {
    if a + b > u16::MAX {
        u16::MAX
    } else {
        (a + b) as u16
    }
}

/// Saturating subtraction on cell coordinates.
pub open spec fn sat_sub(a: u16, b: u16) -> u16 {
    if a < b {
        0u16
    } else {
        (a - b) as u16
    }
}

/// A position or size on the character grid.
#[derive(Clone, Copy, PartialEq, Eq, Structural, Debug, Hash)]
pub struct VecI2 {
    pub x: u16,
    pub y: u16,
}

impl VecI2 {
    pub fn new(x: u16, y: u16) -> (r: Self)
        ensures
            r == (VecI2 { x, y }),
    {
        Self { x, y }
    }

    /// Component-wise saturating addition.
    pub fn plus(self, rhs: Self) -> (r: Self)
        ensures
            r.x == sat_add(self.x, rhs.x),
            r.y == sat_add(self.y, rhs.y),
    {
        VecI2 { x: self.x.saturating_add(rhs.x), y: self.y.saturating_add(rhs.y) }
    }

    /// Component-wise saturating subtraction.
    pub fn minus(self, rhs: Self) -> (r: Self)
        ensures
            r.x == sat_sub(self.x, rhs.x),
            r.y == sat_sub(self.y, rhs.y),
    {
        VecI2 { x: self.x.saturating_sub(rhs.x), y: self.y.saturating_sub(rhs.y) }
    }
}

impl Default for VecI2 {
    fn default() -> (r: Self)
        ensures
            r == (VecI2 { x: 0u16, y: 0u16 }),
    {
        VecI2 { x: 0, y: 0 }
    }
}

/// An axis-aligned rectangle of grid cells, anchored at its top-left corner.
#[derive(Clone, Copy, PartialEq, Eq, Structural, Debug)]
pub struct Rect {
    pub x: u16,
    pub y: u16,
    pub width: u16,
    pub height: u16,
}

impl Default for Rect {
    fn default() -> (r: Self)
        ensures
            r == (Rect { x: 0u16, y: 0u16, width: 0u16, height: 0u16 }),
    {
        Rect { x: 0, y: 0, width: 0, height: 0 }
    }
}

/// The smaller of two coordinates.
pub open spec fn spec_min(a: u16, b: u16) -> u16 {
    if a <= b {
        a
    } else {
        b
    }
}

/// The larger of two coordinates.
pub open spec fn spec_max(a: u16, b: u16) -> u16 {
    if a >= b {
        a
    } else {
        b
    }
}

impl Rect {
    /// The rectangle after [`Rect::move_top_left_to`].
    pub open spec fn spec_moved_top_left_to(self, p: VecI2) -> Rect {
        Rect {
            x: p.x,
            y: p.y,
            width: sat_sub(sat_add(self.x, self.width), p.x),
            height: sat_sub(sat_add(self.y, self.height), p.y),
        }
    }

    /// The rectangle after [`Rect::move_top_right_to`].
    pub open spec fn spec_moved_top_right_to(self, p: VecI2) -> Rect {
        Rect {
            x: self.x,
            y: p.y,
            width: sat_sub(p.x, self.x),
            height: sat_sub(sat_add(self.y, self.height), p.y),
        }
    }

    /// The rectangle after [`Rect::move_bottom_left_to`].
    pub open spec fn spec_moved_bottom_left_to(self, p: VecI2) -> Rect {
        Rect {
            x: p.x,
            y: self.y,
            width: sat_sub(sat_add(self.x, self.width), p.x),
            height: sat_sub(p.y, self.y),
        }
    }

    /// The rectangle after [`Rect::move_bottom_right_to`].
    pub open spec fn spec_moved_bottom_right_to(self, p: VecI2) -> Rect {
        Rect {
            x: spec_min(self.x, p.x),
            y: spec_min(self.y, p.y),
            width: sat_sub(p.x, self.x),
            height: sat_sub(p.y, self.y),
        }
    }

    /// The bounding box of two rectangles, as
    /// [`Rect::expand_to_include`] computes it.
    pub open spec fn spec_expanded_to_include(self, other: Rect) -> Rect {
        let tlx = spec_min(self.x, other.x);
        let tly = spec_min(self.y, other.y);
        let brx = spec_max(sat_add(self.x, self.width), sat_add(other.x, other.width));
        let bry = spec_max(sat_add(self.y, self.height), sat_add(other.y, other.height));
        Rect { x: tlx, y: tly, width: sat_sub(brx, tlx), height: sat_sub(bry, tly) }
    }

    /// Whether `pos` lies inside the rectangle (half-open on both axes, with
    /// the far edges saturating at `u16::MAX`).
    pub open spec fn spec_contains(self, pos: VecI2) -> bool {
        &&& self.x <= pos.x
        &&& pos.x < sat_add(self.x, self.width)
        &&& self.y <= pos.y
        &&& pos.y < sat_add(self.y, self.height)
    }

    /// The rectangle covering the whole addressable grid.
    pub fn max_size() -> (r: Rect)
        ensures
            r == (Rect { x: 0u16, y: 0u16, width: u16::MAX, height: u16::MAX }),
    {
        Rect { x: 0, y: 0, width: u16::MAX, height: u16::MAX }
    }

    /// Grow towards the top-left: the corner moves up-left by `translation`
    /// while the bottom-right corner stays where the size growth puts it.
    pub fn add_top_left(&mut self, translation: VecI2)
        ensures
            final(self).x == sat_sub(old(self).x, translation.x),
            final(self).y == sat_sub(old(self).y, translation.y),
            final(self).width == sat_add(old(self).width, translation.x),
            final(self).height == sat_add(old(self).height, translation.y),
    {
        self.x = self.x.saturating_sub(translation.x);
        self.y = self.y.saturating_sub(translation.y);
        self.width = self.width.saturating_add(translation.x);
        self.height = self.height.saturating_add(translation.y);
    }

    /// Identical to [`Rect::add_top_left`]: moving the top-left corner out by
    /// `translation` is the same operation from either point of view.
    pub fn sub_top_left(&mut self, translation: VecI2)
        ensures
            final(self).x == sat_sub(old(self).x, translation.x),
            final(self).y == sat_sub(old(self).y, translation.y),
            final(self).width == sat_add(old(self).width, translation.x),
            final(self).height == sat_add(old(self).height, translation.y),
    {
        self.x = self.x.saturating_sub(translation.x);
        self.y = self.y.saturating_sub(translation.y);
        self.width = self.width.saturating_add(translation.x);
        self.height = self.height.saturating_add(translation.y);
    }

    /// Grow towards the bottom-right by `translation`.
    pub fn add_bottom_right(&mut self, translation: VecI2)
        ensures
            final(self).x == old(self).x,
            final(self).y == old(self).y,
            final(self).width == sat_add(old(self).width, translation.x),
            final(self).height == sat_add(old(self).height, translation.y),
    {
        self.width = self.width.saturating_add(translation.x);
        self.height = self.height.saturating_add(translation.y);
    }

    /// Shrink from the bottom-right by `translation`.
    pub fn sub_bottom_right(&mut self, translation: VecI2)
        ensures
            final(self).x == old(self).x,
            final(self).y == old(self).y,
            final(self).width == sat_sub(old(self).width, translation.x),
            final(self).height == sat_sub(old(self).height, translation.y),
    {
        self.width = self.width.saturating_sub(translation.x);
        self.height = self.height.saturating_sub(translation.y);
    }

    /// Replace `self` with the smallest rectangle containing both `self` and
    /// `other` (bounding box of the two top-left and bottom-right corners).
    pub fn expand_to_include(&mut self, other: &Self)
        ensures
            *final(self) == old(self).spec_expanded_to_include(*other),
    {
        let s_top_left = self.top_left();
        let o_top_left = other.top_left();
        let s_bottom_right = self.bottom_right();
        let o_bottom_right = other.bottom_right();

        let top_left = VecI2::new(
            if s_top_left.x <= o_top_left.x { s_top_left.x } else { o_top_left.x },
            if s_top_left.y <= o_top_left.y { s_top_left.y } else { o_top_left.y },
        );
        let bottom_right = VecI2::new(
            if s_bottom_right.x >= o_bottom_right.x { s_bottom_right.x } else { o_bottom_right.x },
            if s_bottom_right.y >= o_bottom_right.y { s_bottom_right.y } else { o_bottom_right.y },
        );

        *self = Rect::new_pos_pos(top_left, bottom_right);
    }

    /// Whether the two rectangles share at least one cell.
    pub fn overlap(&self, other: &Self) -> (r: bool)
        ensures
            r <==> exists|p: VecI2| self.spec_contains(p) && other.spec_contains(p),
    {
        if self.height == 0 || self.width == 0 || other.width == 0 || other.height == 0 {
            return false;
        }
        let sx2 = self.x.saturating_add(self.width);
        let sy2 = self.y.saturating_add(self.height);
        let ox2 = other.x.saturating_add(other.width);
        let oy2 = other.y.saturating_add(other.height);

        let r = self.x < ox2 && other.x < sx2 && self.y < oy2 && other.y < sy2;
        proof {
            let px: u16 = if self.x >= other.x { self.x } else { other.x };
            let py: u16 = if self.y >= other.y { self.y } else { other.y };
            if r {
                assert(self.spec_contains(VecI2 { x: px, y: py }));
                assert(other.spec_contains(VecI2 { x: px, y: py }));
            }
        }
        r
    }

    /// Whether `pos` lies inside the rectangle.
    pub fn contains(&self, pos: VecI2) -> (r: bool)
        ensures
            r == self.spec_contains(pos),
    {
        self.x <= pos.x && (self.x.saturating_add(self.width)) > pos.x && self.y <= pos.y
            && (self.y.saturating_add(self.height)) > pos.y
    }

    pub open spec fn spec_top_left(self) -> VecI2 {
        VecI2 { x: self.x, y: self.y }
    }

    pub fn top_left(&self) -> (r: VecI2)
        ensures
            r == self.spec_top_left(),
    {
        VecI2 { x: self.x, y: self.y }
    }

    pub open spec fn spec_top_right(self) -> VecI2 {
        VecI2 { x: sat_add(self.x, self.width), y: self.y }
    }

    /// One column past the rectangle's right edge, on its top row.
    pub fn top_right(&self) -> (r: VecI2)
        ensures
            r == self.spec_top_right(),
    {
        VecI2 { x: self.x.saturating_add(self.width), y: self.y }
    }

    /// The rightmost column still inside the rectangle, on its top row.
    pub fn top_right_inner(&self) -> (r: VecI2)
        ensures
            r == (VecI2 { x: sat_sub(sat_add(self.x, self.width), 1), y: self.y }),
    {
        VecI2 { x: self.x.saturating_add(self.width).saturating_sub(1), y: self.y }
    }

    pub open spec fn spec_bottom_left(self) -> VecI2 {
        VecI2 { x: self.x, y: sat_add(self.y, self.height) }
    }

    /// One row past the rectangle's bottom edge, in its left column.
    pub fn bottom_left(&self) -> (r: VecI2)
        ensures
            r == self.spec_bottom_left(),
    {
        VecI2 { x: self.x, y: self.y.saturating_add(self.height) }
    }

    /// The lowest row still inside the rectangle, in its left column.
    pub fn bottom_left_inner(&self) -> (r: VecI2)
        ensures
            r == (VecI2 { x: self.x, y: sat_sub(sat_add(self.y, self.height), 1) }),
    {
        VecI2 { x: self.x, y: self.y.saturating_add(self.height).saturating_sub(1) }
    }

    pub open spec fn spec_bottom_right(self) -> VecI2 {
        VecI2 { x: sat_add(self.x, self.width), y: sat_add(self.y, self.height) }
    }

    /// One cell past the rectangle's bottom-right corner on both axes.
    pub fn bottom_right(&self) -> (r: VecI2)
        ensures
            r == self.spec_bottom_right(),
    {
        VecI2 {
            x: self.x.saturating_add(self.width),
            y: self.y.saturating_add(self.height),
        }
    }

    /// The last cell still inside the rectangle on both axes.
    pub fn bottom_right_inner(&self) -> (r: VecI2)
        ensures
            r == (VecI2 {
                x: sat_sub(sat_add(self.x, self.width), 1),
                y: sat_sub(sat_add(self.y, self.height), 1),
            }),
    {
        VecI2 {
            x: self.x.saturating_add(self.width).saturating_sub(1),
            y: self.y.saturating_add(self.height).saturating_sub(1),
        }
    }

    pub fn new_pos_size(pos: VecI2, size: VecI2) -> (r: Rect)
        ensures
            r == (Rect { x: pos.x, y: pos.y, width: size.x, height: size.y }),
    {
        Self { x: pos.x, y: pos.y, width: size.x, height: size.y }
    }

    /// The rectangle spanned by a top-left and a bottom-right corner; a corner
    /// pair in the wrong order gives an empty rectangle on that axis.
    pub fn new_pos_pos(top_left: VecI2, bottom_right: VecI2) -> (r: Rect)
        ensures
            r == (Rect {
                x: top_left.x,
                y: top_left.y,
                width: sat_sub(bottom_right.x, top_left.x),
                height: sat_sub(bottom_right.y, top_left.y),
            }),
    {
        let width = bottom_right.x.saturating_sub(top_left.x);
        let height = bottom_right.y.saturating_sub(top_left.y);
        Self { x: top_left.x, y: top_left.y, width, height }
    }

    pub fn size(&self) -> (r: VecI2)
        ensures
            r == (VecI2 { x: self.width, y: self.height }),
    {
        VecI2 { x: self.width, y: self.height }
    }

    /// Move every edge outward by `ammount` (the size grows by `2 * ammount`
    /// on each axis, saturating).
    pub fn expand_evenly(&mut self, ammount: u16)
        ensures
            final(self).x == sat_sub(old(self).x, ammount),
            final(self).y == sat_sub(old(self).y, ammount),
            final(self).width == sat_add(sat_add(old(self).width, ammount), ammount),
            final(self).height == sat_add(sat_add(old(self).height, ammount), ammount),
    {
        self.x = self.x.saturating_sub(ammount);
        self.y = self.y.saturating_sub(ammount);
        self.width = self.width.saturating_add(ammount);
        self.width = self.width.saturating_add(ammount);
        self.height = self.height.saturating_add(ammount);
        self.height = self.height.saturating_add(ammount);
    }

    /// Move every edge inward by `ammount` (the size shrinks by `2 * ammount`
    /// on each axis, clamping at zero).
    pub fn shrink_evenly(&mut self, ammount: u16)
        ensures
            final(self).x == sat_add(old(self).x, ammount),
            final(self).y == sat_add(old(self).y, ammount),
            final(self).width == sat_sub(sat_sub(old(self).width, ammount), ammount),
            final(self).height == sat_sub(sat_sub(old(self).height, ammount), ammount),
    {
        self.x = self.x.saturating_add(ammount);
        self.y = self.y.saturating_add(ammount);
        self.width = self.width.saturating_sub(ammount);
        self.width = self.width.saturating_sub(ammount);
        self.height = self.height.saturating_sub(ammount);
        self.height = self.height.saturating_sub(ammount);
    }

    /// Clip `self` to `max_rect`: the result is the intersection, with both
    /// corners clamped into `max_rect`.
    pub fn shrink_to_fit_within(&mut self, max_rect: Rect)
        ensures
            final(self).x == if old(self).x >= max_rect.x { old(self).x } else { max_rect.x },
            final(self).y == if old(self).y >= max_rect.y { old(self).y } else { max_rect.y },
            sat_add(final(self).x, final(self).width) == {
                let sbr = sat_add(old(self).x, old(self).width);
                let mbr = sat_add(max_rect.x, max_rect.width);
                if final(self).x >= (if sbr <= mbr { sbr } else { mbr }) {
                    final(self).x
                } else {
                    if sbr <= mbr { sbr } else { mbr }
                }
            },
            sat_add(final(self).y, final(self).height) == {
                let sbr = sat_add(old(self).y, old(self).height);
                let mbr = sat_add(max_rect.y, max_rect.height);
                if final(self).y >= (if sbr <= mbr { sbr } else { mbr }) {
                    final(self).y
                } else {
                    if sbr <= mbr { sbr } else { mbr }
                }
            },
    {
        let mut bottom_right = self.bottom_right();
        let max_bottom_right = max_rect.bottom_right();

        self.x = if self.x >= max_rect.x { self.x } else { max_rect.x };
        self.y = if self.y >= max_rect.y { self.y } else { max_rect.y };

        bottom_right.x = if bottom_right.x <= max_bottom_right.x {
            bottom_right.x
        } else {
            max_bottom_right.x
        };
        bottom_right.y = if bottom_right.y <= max_bottom_right.y {
            bottom_right.y
        } else {
            max_bottom_right.y
        };

        self.width = bottom_right.x.saturating_sub(self.x);
        self.height = bottom_right.y.saturating_sub(self.y);
    }

    /// Move the rectangle so its top-left corner sits at `top_left`, keeping
    /// the bottom-right corner fixed (the size changes accordingly).
    pub fn move_top_left_to(&mut self, top_left: VecI2)
        ensures
            final(self).x == top_left.x,
            final(self).y == top_left.y,
            final(self).width == sat_sub(sat_add(old(self).x, old(self).width), top_left.x),
            final(self).height == sat_sub(sat_add(old(self).y, old(self).height), top_left.y),
    {
        let bottom_right = self.bottom_right();
        *self = Rect::new_pos_pos(top_left, bottom_right);
    }

    /// Move the rectangle so its top-right corner sits at `top_right`, keeping
    /// the bottom-left corner fixed.
    pub fn move_top_right_to(&mut self, top_right: VecI2)
        ensures
            final(self).x == old(self).x,
            final(self).y == top_right.y,
            final(self).width == sat_sub(top_right.x, old(self).x),
            final(self).height == sat_sub(sat_add(old(self).y, old(self).height), top_right.y),
    {
        let bottom_left = self.bottom_left();
        let top_left = VecI2::new(bottom_left.x, top_right.y);
        let bottom_right = VecI2::new(top_right.x, bottom_left.y);
        *self = Self::new_pos_pos(top_left, bottom_right);
    }

    /// Move the rectangle so its bottom-left corner sits at `bottom_left`,
    /// keeping the top-right corner fixed.
    pub fn move_bottom_left_to(&mut self, bottom_left: VecI2)
        ensures
            final(self).x == bottom_left.x,
            final(self).y == old(self).y,
            final(self).width == sat_sub(sat_add(old(self).x, old(self).width), bottom_left.x),
            final(self).height == sat_sub(bottom_left.y, old(self).y),
    {
        let top_right = self.top_right();
        let top_left = VecI2::new(bottom_left.x, top_right.y);
        let bottom_right = VecI2::new(top_right.x, bottom_left.y);
        *self = Self::new_pos_pos(top_left, bottom_right);
    }

    /// Move the rectangle so its bottom-right corner sits at `bottom_right`,
    /// keeping the top-left corner fixed; if the corner crosses the top-left,
    /// the rectangle collapses to zero size at `bottom_right` on that axis.
    pub fn move_bottom_right_to(&mut self, bottom_right: VecI2)
        ensures
            final(self).x == if old(self).x <= bottom_right.x { old(self).x } else { bottom_right.x },
            final(self).y == if old(self).y <= bottom_right.y { old(self).y } else { bottom_right.y },
            final(self).width == sat_sub(bottom_right.x, old(self).x),
            final(self).height == sat_sub(bottom_right.y, old(self).y),
    {
        *self = Self::new_pos_pos(self.top_left(), bottom_right);
        if self.x > bottom_right.x {
            self.x = bottom_right.x;
            self.width = 0;
        }
        if self.y > bottom_right.y {
            self.y = bottom_right.y;
            self.height = 0;
        }
    }
}

} // verus!
