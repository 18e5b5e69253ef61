//! The quadrant layout engine: a per-subtree cursor that walks one of eight
//! layouts ({anchor corner} x {primary axis}) and turns "allocate this much
//! space" calls into concrete rectangles.
//!
//! Layout never fails: out-of-bounds requests silently clamp to the available
//! space. Sibling allocations stack only along the primary axis; the
//! cross-axis position is restored after each allocation.

use vstd::prelude::*;
use crate::geometry::{sat_add, sat_sub, spec_max, spec_min, Rect, VecI2};
use crate::id::Id;

verus! {

/// One of the eight layouts: the corner the cursor starts from, and the axis
/// along which sequential allocations stack.
#[derive(Clone, Copy, PartialEq, Eq, Structural, Debug)]
pub enum Layout {
    TopLeftVertical,
    TopLeftHorizontal,
    TopRightVertical,
    TopRightHorizontal,
    BottomLeftVertical,
    BottomLeftHorizontal,
    BottomRightVertical,
    BottomRightHorizontal,
}

impl Layout {
    pub open spec fn spec_is_primary_vertical(self) -> bool {
        match self {
            Layout::TopLeftVertical => true,
            Layout::TopLeftHorizontal => false,
            Layout::TopRightVertical => true,
            Layout::TopRightHorizontal => false,
            Layout::BottomLeftVertical => true,
            Layout::BottomLeftHorizontal => false,
            Layout::BottomRightVertical => true,
            Layout::BottomRightHorizontal => false,
        }
    }

    pub fn is_primary_vertical(&self) -> (r: bool)
        ensures
            r == self.spec_is_primary_vertical(),
    {
        match self {
            Layout::TopLeftVertical => true,
            Layout::TopLeftHorizontal => false,
            Layout::TopRightVertical => true,
            Layout::TopRightHorizontal => false,
            Layout::BottomLeftVertical => true,
            Layout::BottomLeftHorizontal => false,
            Layout::BottomRightVertical => true,
            Layout::BottomRightHorizontal => false,
        }
    }

    pub fn is_primary_horizontal(&self) -> (r: bool)
        ensures
            r == !self.spec_is_primary_vertical(),
    {
        !self.is_primary_vertical()
    }

    /// The layout with the same anchor corner and a vertical primary axis.
    pub open spec fn spec_to_vertical(self) -> Layout {
        match self {
            Layout::TopLeftVertical | Layout::TopLeftHorizontal => Layout::TopLeftVertical,
            Layout::TopRightVertical | Layout::TopRightHorizontal => Layout::TopRightVertical,
            Layout::BottomLeftVertical | Layout::BottomLeftHorizontal => Layout::BottomLeftVertical,
            Layout::BottomRightVertical | Layout::BottomRightHorizontal => {
                Layout::BottomRightVertical
            },
        }
    }

    pub fn to_vertical(&self) -> (r: Self)
        ensures
            r == self.spec_to_vertical(),
    {
        match self {
            Layout::TopLeftVertical | Layout::TopLeftHorizontal => Layout::TopLeftVertical,
            Layout::TopRightVertical | Layout::TopRightHorizontal => Layout::TopRightVertical,
            Layout::BottomLeftVertical | Layout::BottomLeftHorizontal => Layout::BottomLeftVertical,
            Layout::BottomRightVertical | Layout::BottomRightHorizontal => {
                Layout::BottomRightVertical
            },
        }
    }

    /// The layout with the same anchor corner and a horizontal primary axis.
    pub open spec fn spec_to_horizontal(self) -> Layout {
        match self {
            Layout::TopLeftVertical | Layout::TopLeftHorizontal => Layout::TopLeftHorizontal,
            Layout::TopRightVertical | Layout::TopRightHorizontal => Layout::TopRightHorizontal,
            Layout::BottomLeftVertical | Layout::BottomLeftHorizontal => {
                Layout::BottomLeftHorizontal
            },
            Layout::BottomRightVertical | Layout::BottomRightHorizontal => {
                Layout::BottomRightHorizontal
            },
        }
    }

    pub fn to_horizontal(&self) -> (r: Self)
        ensures
            r == self.spec_to_horizontal(),
    {
        match self {
            Layout::TopLeftVertical | Layout::TopLeftHorizontal => Layout::TopLeftHorizontal,
            Layout::TopRightVertical | Layout::TopRightHorizontal => Layout::TopRightHorizontal,
            Layout::BottomLeftVertical | Layout::BottomLeftHorizontal => {
                Layout::BottomLeftHorizontal
            },
            Layout::BottomRightVertical | Layout::BottomRightHorizontal => {
                Layout::BottomRightHorizontal
            },
        }
    }

    /// The same anchor corner with the primary axis flipped.
    pub fn opposite_primary_direction(&self) -> (r: Self)
        ensures
            r == if self.spec_is_primary_vertical() {
                self.spec_to_horizontal()
            } else {
                self.spec_to_vertical()
            },
    {
        if self.is_primary_vertical() {
            self.to_horizontal()
        } else {
            self.to_vertical()
        }
    }
}

/// The text split on explicit newlines, from character `i`, with `cur` the
/// line gathered so far and `acc` the lines already finished. A text always
/// yields at least one (possibly empty) line.
pub open spec fn spec_split_rec(
    s: Seq<char>,
    i: int,
    cur: Seq<char>,
    acc: Seq<Seq<char>>,
) -> Seq<Seq<char>>
    decreases s.len() - i,
{
    if i < 0 || i >= s.len() {
        acc.push(cur)
    } else if s[i] == '\n' {
        spec_split_rec(s, i + 1, Seq::empty(), acc.push(cur))
    } else {
        spec_split_rec(s, i + 1, cur.push(s[i]), acc)
    }
}

/// The lines of a text, split on explicit newlines.
pub open spec fn spec_split_lines(s: Seq<char>) -> Seq<Seq<char>> {
    spec_split_rec(s, 0, Seq::empty(), Seq::empty())
}

/// A run's displayed width, clamped to one cell row.
pub open spec fn spec_line_width(s: Seq<char>) -> u16 {
    if crate::render::seq_width(s) > u16::MAX {
        u16::MAX
    } else {
        crate::render::seq_width(s) as u16
    }
}

/// The widest line, from index `i` on.
pub open spec fn spec_max_line_width(lines: Seq<Seq<char>>, i: int) -> u16
    decreases lines.len() - i,
{
    if i < 0 || i >= lines.len() {
        0u16
    } else {
        spec_max(spec_line_width(lines[i]), spec_max_line_width(lines, i + 1))
    }
}

/// A laid-out run of styled text: the bounding rectangle and one positioned
/// item per line (plus a zero-sized leading item holding the whole text,
/// which draws nothing because its clip is empty).
pub struct Gallery {
    pub bound: Rect,
    pub items: Vec<(Rect, crate::style::StyledText)>,
}

/// The model of a gallery's items.
pub open spec fn gallery_view(items: Seq<(Rect, crate::style::StyledText)>) -> Seq<
    (Rect, Seq<char>, crate::style::Style),
> {
    items.map_values(|it: (Rect, crate::style::StyledText)| (it.0, it.1.text@, it.1.style))
}

/// How far a gallery at `pos` is shifted back towards its anchor: a
/// right-anchored layout shifts left by the bound's width, a bottom-anchored
/// one up by its height.
pub open spec fn spec_gallery_shift(layout: Layout, width: u16, height: u16) -> (u16, u16) {
    match layout {
        Layout::TopLeftHorizontal | Layout::TopLeftVertical => (0u16, 0u16),
        Layout::TopRightHorizontal | Layout::TopRightVertical => (width, 0u16),
        Layout::BottomLeftHorizontal | Layout::BottomLeftVertical => (0u16, height),
        Layout::BottomRightHorizontal | Layout::BottomRightVertical => (width, height),
    }
}

/// The laid-out items of `text` at `pos` under `layout`: item 0 is the whole
/// text in a zero-size rectangle; item `k + 1` covers line `k`, one row per
/// line, each line's rectangle as wide as the line; all shifted towards the
/// anchor.
pub open spec fn spec_gallery(layout: Layout, pos: VecI2, text: Seq<char>, style: crate::style::Style) -> (
    Rect,
    Seq<(Rect, Seq<char>, crate::style::Style)>,
) {
    let lines = spec_split_lines(text);
    let width = spec_max_line_width(lines, 0);
    let height = if lines.len() > u16::MAX {
        u16::MAX
    } else {
        lines.len() as u16
    };
    let shift = spec_gallery_shift(layout, width, height);
    let bound = Rect {
        x: sat_sub(pos.x, shift.0),
        y: sat_sub(pos.y, shift.1),
        width,
        height,
    };
    let items = Seq::new(
        lines.len() + 1,
        |k: int|
            if k == 0 {
                (
                    Rect {
                        x: sat_sub(pos.x, shift.0),
                        y: sat_sub(pos.y, shift.1),
                        width: 0u16,
                        height: 0u16,
                    },
                    text,
                    style,
                )
            } else {
                (
                    Rect {
                        x: sat_sub(pos.x, shift.0),
                        y: sat_sub(
                            sat_add(
                                pos.y,
                                if k - 1 > u16::MAX {
                                    u16::MAX
                                } else {
                                    (k - 1) as u16
                                },
                            ),
                            shift.1,
                        ),
                        width: spec_line_width(lines[k - 1]),
                        height: 1u16,
                    },
                    lines[k - 1],
                    style,
                )
            },
    );
    (bound, items)
}

/// The cursor's starting corner of `clip` for `layout`: top-left for
/// top-left-anchored layouts, and the respective outer corner otherwise.
pub open spec fn spec_anchor_cursor(layout: Layout, clip: Rect) -> VecI2 {
    match layout {
        Layout::TopLeftHorizontal | Layout::TopLeftVertical => clip.spec_top_left(),
        Layout::TopRightHorizontal | Layout::TopRightVertical => clip.spec_top_right(),
        Layout::BottomLeftHorizontal | Layout::BottomLeftVertical => clip.spec_bottom_left(),
        Layout::BottomRightHorizontal | Layout::BottomRightVertical => clip.spec_bottom_right(),
    }
}

/// A layout cursor over one rectangular region. `clip` bounds what children
/// may draw, `max_rect` bounds what may be allocated, `cursor` is where the
/// next allocation starts, and `current` accumulates the union of everything
/// allocated through this cursor (to be folded into the parent when the scope
/// ends).
pub struct Ui {
    id: Id,
    next_id_source: u64,
    layout: Layout,
    clip: Rect,
    max_rect: Rect,
    cursor: VecI2,
    current: Rect,
    layer: u8,
}

impl Ui {
    pub closed spec fn spec_layout(self) -> Layout {
        self.layout
    }

    pub closed spec fn spec_clip(self) -> Rect {
        self.clip
    }

    pub closed spec fn spec_max_rect(self) -> Rect {
        self.max_rect
    }

    pub closed spec fn spec_cursor(self) -> VecI2 {
        self.cursor
    }

    pub closed spec fn spec_current(self) -> Rect {
        self.current
    }

    pub closed spec fn spec_layer(self) -> u8 {
        self.layer
    }

    /// The cursor never leaves `max_rect`: every operation clamps it back.
    pub open spec fn cursor_in_max(self) -> bool {
        &&& self.spec_max_rect().x <= self.spec_cursor().x
        &&& self.spec_cursor().x <= sat_add(self.spec_max_rect().x, self.spec_max_rect().width)
        &&& self.spec_max_rect().y <= self.spec_cursor().y
        &&& self.spec_cursor().y <= sat_add(self.spec_max_rect().y, self.spec_max_rect().height)
    }

    /// A fresh cursor over `clip`, starting at the anchor corner of `layout`,
    /// with an empty accumulated rectangle.
    pub fn new(layout: Layout, id: Id, clip: Rect, layer: u8) -> (r: Self)
        ensures
            r.spec_layout() == layout,
            r.spec_clip() == clip,
            r.spec_max_rect() == clip,
            r.spec_cursor() == spec_anchor_cursor(layout, clip),
            r.spec_current() == (Rect {
                x: spec_anchor_cursor(layout, clip).x,
                y: spec_anchor_cursor(layout, clip).y,
                width: 0u16,
                height: 0u16,
            }),
            r.spec_layer() == layer,
            r.cursor_in_max(),
    {
        let cursor = match layout {
            Layout::TopLeftHorizontal | Layout::TopLeftVertical => clip.top_left(),
            Layout::TopRightHorizontal | Layout::TopRightVertical => clip.top_right(),
            Layout::BottomLeftHorizontal | Layout::BottomLeftVertical => clip.bottom_left(),
            Layout::BottomRightHorizontal | Layout::BottomRightVertical => clip.bottom_right(),
        };
        Self {
            id,
            next_id_source: id.with(":layout").value(),
            layout,
            clip,
            max_rect: clip,
            cursor,
            current: Rect::new_pos_size(cursor, VecI2 { x: 0, y: 0 }),
            layer,
        }
    }

    pub fn get_clip(&self) -> (r: Rect)
        ensures
            r == self.spec_clip(),
    {
        self.clip
    }

    pub fn get_max(&self) -> (r: Rect)
        ensures
            r == self.spec_max_rect(),
    {
        self.max_rect
    }

    pub fn set_max(&mut self, max: Rect)
        ensures
            final(self).spec_max_rect() == max,
            final(self).spec_layout() == old(self).spec_layout(),
            final(self).spec_clip() == old(self).spec_clip(),
            final(self).spec_cursor() == old(self).spec_cursor(),
            final(self).spec_current() == old(self).spec_current(),
            final(self).spec_layer() == old(self).spec_layer(),
            final(self).spec_id_source() == old(self).spec_id_source(),
    {
        self.max_rect = max;
    }

    pub fn get_cursor(&self) -> (r: VecI2)
        ensures
            r == self.spec_cursor(),
    {
        self.cursor
    }

    pub fn get_current(&self) -> (r: Rect)
        ensures
            r == self.spec_current(),
    {
        self.current
    }

    pub fn layer(&self) -> (r: u8)
        ensures
            r == self.spec_layer(),
    {
        self.layer
    }

    pub fn layout(&self) -> (r: Layout)
        ensures
            r == self.spec_layout(),
    {
        self.layout
    }

    /// The cursor after moving by `space`, before clamping: right-anchored
    /// layouts subtract on x to move "forward", bottom-anchored ones on y.
    pub open spec fn spec_moved_cursor(layout: Layout, c: VecI2, space: VecI2) -> VecI2 {
        match layout {
            Layout::TopLeftHorizontal | Layout::TopLeftVertical => VecI2 {
                x: sat_add(c.x, space.x),
                y: sat_add(c.y, space.y),
            },
            Layout::TopRightHorizontal | Layout::TopRightVertical => VecI2 {
                x: sat_sub(c.x, space.x),
                y: sat_add(c.y, space.y),
            },
            Layout::BottomLeftHorizontal | Layout::BottomLeftVertical => VecI2 {
                x: sat_add(c.x, space.x),
                y: sat_sub(c.y, space.y),
            },
            Layout::BottomRightHorizontal | Layout::BottomRightVertical => VecI2 {
                x: sat_sub(c.x, space.x),
                y: sat_sub(c.y, space.y),
            },
        }
    }

    /// A position clamped into `max` (edges included).
    pub open spec fn spec_clamp_to(max: Rect, c: VecI2) -> VecI2 {
        VecI2 {
            x: spec_min(spec_max(c.x, max.x), sat_add(max.x, max.width)),
            y: spec_min(spec_max(c.y, max.y), sat_add(max.y, max.height)),
        }
    }

    /// A rectangle re-anchored so its layout corner sits at `c`.
    pub open spec fn spec_reanchored(layout: Layout, r: Rect, c: VecI2) -> Rect {
        match layout {
            Layout::TopLeftHorizontal | Layout::TopLeftVertical => r.spec_moved_top_left_to(c),
            Layout::TopRightHorizontal | Layout::TopRightVertical => r.spec_moved_top_right_to(c),
            Layout::BottomLeftHorizontal | Layout::BottomLeftVertical => r.spec_moved_bottom_left_to(
                c,
            ),
            Layout::BottomRightHorizontal | Layout::BottomRightVertical => r
                .spec_moved_bottom_right_to(c),
        }
    }

    /// The cursor after [`Ui::add_space`]: moved by `space` in the layout's
    /// directions, then clamped into `max_rect`.
    pub closed spec fn spec_add_space(self, space: VecI2) -> Ui {
        let c1 = Ui::spec_moved_cursor(self.layout, self.cursor, space);
        let c2 = Ui::spec_clamp_to(self.max_rect, c1);
        Ui {
            clip: Ui::spec_reanchored(self.layout, self.clip, c2),
            max_rect: Ui::spec_reanchored(self.layout, self.max_rect, c2),
            cursor: c2,
            current: self.current.spec_expanded_to_include(
                Rect { x: c2.x, y: c2.y, width: 0u16, height: 0u16 },
            ),
            ..self
        }
    }

    /// Move the cursor by `space` in the layout's directions, clamp it into
    /// `max_rect`, and re-anchor both `clip` and `max_rect` to the new
    /// cursor, so subsequent allocations are relative to the new position.
    /// The accumulated rectangle grows to include the new cursor.
    pub fn add_space(&mut self, space: VecI2)
        ensures
            *final(self) == old(self).spec_add_space(space),
            final(self).cursor_in_max(),
    {
        match self.layout {
            Layout::TopLeftHorizontal | Layout::TopLeftVertical => {
                self.cursor = self.cursor.plus(space);
            },
            Layout::TopRightHorizontal | Layout::TopRightVertical => {
                self.cursor = VecI2 {
                    x: self.cursor.x.saturating_sub(space.x),
                    y: self.cursor.y.saturating_add(space.y),
                };
            },
            Layout::BottomLeftHorizontal | Layout::BottomLeftVertical => {
                self.cursor = VecI2 {
                    x: self.cursor.x.saturating_add(space.x),
                    y: self.cursor.y.saturating_sub(space.y),
                };
            },
            Layout::BottomRightHorizontal | Layout::BottomRightVertical => {
                self.cursor = VecI2 {
                    x: self.cursor.x.saturating_sub(space.x),
                    y: self.cursor.y.saturating_sub(space.y),
                };
            },
        }

        if self.cursor.x < self.max_rect.x {
            self.cursor.x = self.max_rect.x;
        }
        let mx = self.max_rect.x.saturating_add(self.max_rect.width);
        if self.cursor.x > mx {
            self.cursor.x = mx;
        }
        if self.cursor.y < self.max_rect.y {
            self.cursor.y = self.max_rect.y;
        }
        let my = self.max_rect.y.saturating_add(self.max_rect.height);
        if self.cursor.y > my {
            self.cursor.y = my;
        }

        match self.layout {
            Layout::TopLeftHorizontal | Layout::TopLeftVertical => {
                self.clip.move_top_left_to(self.cursor);
                self.max_rect.move_top_left_to(self.cursor);
            },
            Layout::TopRightHorizontal | Layout::TopRightVertical => {
                self.clip.move_top_right_to(self.cursor);
                self.max_rect.move_top_right_to(self.cursor);
            },
            Layout::BottomLeftHorizontal | Layout::BottomLeftVertical => {
                self.clip.move_bottom_left_to(self.cursor);
                self.max_rect.move_bottom_left_to(self.cursor);
            },
            Layout::BottomRightHorizontal | Layout::BottomRightVertical => {
                self.clip.move_bottom_right_to(self.cursor);
                self.max_rect.move_bottom_right_to(self.cursor);
            },
        }

        self.current.expand_to_include(&Rect::new_pos_size(self.cursor, VecI2 { x: 0, y: 0 }));
    }

    pub fn add_horizontal_space(&mut self, space: u16)
        ensures
            *final(self) == old(self).spec_add_space(VecI2 { x: space, y: 0u16 }),
            final(self).cursor_in_max(),
    {
        self.add_space(VecI2 { x: space, y: 0 })
    }

    pub fn add_vertical_space(&mut self, space: u16)
        ensures
            *final(self) == old(self).spec_add_space(VecI2 { x: 0u16, y: space }),
            final(self).cursor_in_max(),
    {
        self.add_space(VecI2 { x: 0, y: space })
    }

    /// Move the cursor by `space` along the primary axis only.
    pub fn add_space_primary_direction(&mut self, space: u16)
        ensures
            *final(self) == old(self).spec_add_space(
                if old(self).spec_layout().spec_is_primary_vertical() {
                    VecI2 { x: 0u16, y: space }
                } else {
                    VecI2 { x: space, y: 0u16 }
                },
            ),
            final(self).cursor_in_max(),
    {
        if self.layout.is_primary_horizontal() {
            self.add_space(VecI2 { x: space, y: 0 });
        } else {
            self.add_space(VecI2 { x: 0, y: space });
        }
    }

    /// The state and result of [`Ui::allocate_size`]: the cursor advances by
    /// `desired` along the layout's directions (clamped to `max_rect`), the
    /// cross-axis cursor position and `max_rect` extent are then restored,
    /// and the result is the rectangle swept between the old and new cursor,
    /// normalized whatever corner is anchored.
    pub closed spec fn spec_allocate_size(self, desired: VecI2) -> (Ui, Rect) {
        let moved = self.spec_add_space(desired);
        let after = if self.layout.spec_is_primary_vertical() {
            Ui {
                cursor: VecI2 { x: self.cursor.x, y: moved.cursor.y },
                max_rect: Rect {
                    x: self.max_rect.x,
                    width: self.max_rect.width,
                    ..moved.max_rect
                },
                ..moved
            }
        } else {
            Ui {
                cursor: VecI2 { x: moved.cursor.x, y: self.cursor.y },
                max_rect: Rect {
                    y: self.max_rect.y,
                    height: self.max_rect.height,
                    ..moved.max_rect
                },
                ..moved
            }
        };
        let r = Rect {
            x: spec_min(self.cursor.x, moved.cursor.x),
            y: spec_min(self.cursor.y, moved.cursor.y),
            width: sat_sub(
                spec_max(self.cursor.x, moved.cursor.x),
                spec_min(self.cursor.x, moved.cursor.x),
            ),
            height: sat_sub(
                spec_max(self.cursor.y, moved.cursor.y),
                spec_min(self.cursor.y, moved.cursor.y),
            ),
        };
        (after, r)
    }

    /// Advance the cursor by `desired` along the primary axis (clamped so the
    /// cursor never leaves `max_rect`), restore the cross-axis position so
    /// sibling allocations never drift, and return the swept rectangle.
    pub fn allocate_size(&mut self, desired: VecI2) -> (r: Rect)
        ensures
            *final(self) == old(self).spec_allocate_size(desired).0,
            r == old(self).spec_allocate_size(desired).1,
            old(self).cursor_in_max() ==> final(self).cursor_in_max(),
    {
        let old_cursor = self.cursor;
        let old_max = self.max_rect;
        self.add_space(desired);
        let new_cursor = self.cursor;

        if self.layout.is_primary_vertical() {
            self.cursor.x = old_cursor.x;
            self.max_rect.x = old_max.x;
            self.max_rect.width = old_max.width;
        } else {
            self.cursor.y = old_cursor.y;
            self.max_rect.y = old_max.y;
            self.max_rect.height = old_max.height;
        }
        let x = if old_cursor.x <= new_cursor.x {
            old_cursor.x
        } else {
            new_cursor.x
        };
        let y = if old_cursor.y <= new_cursor.y {
            old_cursor.y
        } else {
            new_cursor.y
        };
        let width = if old_cursor.x <= new_cursor.x {
            new_cursor.x - x
        } else {
            old_cursor.x - x
        };
        let height = if old_cursor.y <= new_cursor.y {
            new_cursor.y - y
        } else {
            old_cursor.y - y
        };
        Rect { x, y, width, height }
    }

    /// The state and result of [`Ui::allocate_area`]: when `rect`'s
    /// layout-relevant corner coincides with the cursor, or `rect` already
    /// contains the cursor, this is `allocate_size` of `rect`'s size;
    /// otherwise `rect` is first expanded to include the cursor
    /// (out-of-order placement).
    pub closed spec fn spec_allocate_area(self, rect: Rect) -> (Ui, Rect) {
        let start = match self.layout {
            Layout::TopLeftHorizontal | Layout::TopLeftVertical => rect.spec_top_left(),
            Layout::TopRightHorizontal | Layout::TopRightVertical => VecI2 {
                x: sat_sub(sat_add(rect.x, rect.width), 1),
                y: rect.y,
            },
            Layout::BottomLeftHorizontal | Layout::BottomLeftVertical => VecI2 {
                x: rect.x,
                y: sat_sub(sat_add(rect.y, rect.height), 1),
            },
            Layout::BottomRightHorizontal | Layout::BottomRightVertical => VecI2 {
                x: sat_sub(sat_add(rect.x, rect.width), 1),
                y: sat_sub(sat_add(rect.y, rect.height), 1),
            },
        };
        if start == self.cursor || rect.spec_contains(self.cursor) {
            self.spec_allocate_size(VecI2 { x: rect.width, y: rect.height })
        } else {
            let expanded = rect.spec_expanded_to_include(
                Rect { x: self.cursor.x, y: self.cursor.y, width: 0u16, height: 0u16 },
            );
            self.spec_allocate_size(VecI2 { x: expanded.width, y: expanded.height })
        }
    }

    /// Allocate an explicitly placed rectangle: behaves as `allocate_size` of
    /// its size when it starts at (or covers) the cursor, and expands it to
    /// reach the cursor otherwise.
    pub fn allocate_area(&mut self, rect: Rect) -> (r: Rect)
        ensures
            *final(self) == old(self).spec_allocate_area(rect).0,
            r == old(self).spec_allocate_area(rect).1,
            old(self).cursor_in_max() ==> final(self).cursor_in_max(),
    {
        let start = match self.layout {
            Layout::TopLeftHorizontal | Layout::TopLeftVertical => rect.top_left(),
            Layout::TopRightHorizontal | Layout::TopRightVertical => rect.top_right_inner(),
            Layout::BottomLeftHorizontal | Layout::BottomLeftVertical => rect.bottom_left_inner(),
            Layout::BottomRightHorizontal | Layout::BottomRightVertical => {
                rect.bottom_right_inner()
            },
        };
        if start == self.cursor {
            self.allocate_size(rect.size())
        } else if rect.contains(self.cursor) {
            self.allocate_size(rect.size())
        } else {
            let mut rect = rect;
            rect.expand_to_include(&Rect::new_pos_size(self.cursor, VecI2 { x: 0, y: 0 }));
            self.allocate_size(rect.size())
        }
    }

    /// Grow the accumulated rectangle by `translation`, away from the anchor
    /// corner.
    pub fn expand(&mut self, translation: VecI2)
        ensures
            final(self).spec_current() == ({
                let cur = old(self).spec_current();
                match old(self).spec_layout() {
                    Layout::TopLeftHorizontal | Layout::TopLeftVertical => Rect {
                        width: sat_add(cur.width, translation.x),
                        height: sat_add(cur.height, translation.y),
                        ..cur
                    },
                    Layout::TopRightHorizontal | Layout::TopRightVertical => Rect {
                        x: sat_sub(cur.x, translation.x),
                        width: sat_add(cur.width, translation.x),
                        height: sat_add(cur.height, translation.y),
                        ..cur
                    },
                    Layout::BottomLeftHorizontal | Layout::BottomLeftVertical => Rect {
                        y: sat_sub(cur.y, translation.y),
                        width: sat_add(cur.width, translation.x),
                        height: sat_add(cur.height, translation.y),
                        ..cur
                    },
                    Layout::BottomRightHorizontal | Layout::BottomRightVertical => Rect {
                        x: sat_sub(cur.x, translation.x),
                        y: sat_sub(cur.y, translation.y),
                        width: sat_add(cur.width, translation.x),
                        height: sat_add(cur.height, translation.y),
                        ..cur
                    },
                }
            }),
            final(self).spec_layout() == old(self).spec_layout(),
            final(self).spec_clip() == old(self).spec_clip(),
            final(self).spec_max_rect() == old(self).spec_max_rect(),
            final(self).spec_cursor() == old(self).spec_cursor(),
            final(self).spec_layer() == old(self).spec_layer(),
            final(self).spec_id_source() == old(self).spec_id_source(),
    {
        match self.layout {
            Layout::TopLeftHorizontal | Layout::TopLeftVertical => {
                self.current.add_bottom_right(translation);
            },
            Layout::TopRightHorizontal | Layout::TopRightVertical => {
                self.current.add_bottom_right(VecI2 { x: 0, y: translation.y });
                self.current.add_top_left(VecI2 { x: translation.x, y: 0 });
            },
            Layout::BottomLeftHorizontal | Layout::BottomLeftVertical => {
                self.current.add_bottom_right(VecI2 { x: translation.x, y: 0 });
                self.current.add_top_left(VecI2 { x: 0, y: translation.y });
            },
            Layout::BottomRightHorizontal | Layout::BottomRightVertical => {
                self.current.add_top_left(translation);
            },
        }
    }

    /// Grow the accumulated rectangle to at least `min` on each axis (clamped
    /// to what `max_rect` offers), keeping the anchored corner in place: a
    /// right-anchored layout grows leftward, a bottom-anchored one upward.
    pub fn set_minimum_size(&mut self, min: VecI2)
        ensures
            final(self).spec_current().width == spec_max(
                old(self).spec_current().width,
                spec_min(min.x, old(self).spec_max_rect().width),
            ),
            final(self).spec_current().height == spec_max(
                old(self).spec_current().height,
                spec_min(min.y, old(self).spec_max_rect().height),
            ),
            final(self).spec_current().x == ({
                let cur = old(self).spec_current();
                match old(self).spec_layout() {
                    Layout::TopRightHorizontal | Layout::TopRightVertical
                    | Layout::BottomRightHorizontal | Layout::BottomRightVertical => sat_sub(
                        sat_add(cur.x, cur.width),
                        final(self).spec_current().width,
                    ),
                    _ => cur.x,
                }
            }),
            final(self).spec_current().y == ({
                let cur = old(self).spec_current();
                match old(self).spec_layout() {
                    Layout::BottomLeftHorizontal | Layout::BottomLeftVertical
                    | Layout::BottomRightHorizontal | Layout::BottomRightVertical => sat_sub(
                        sat_add(cur.y, cur.height),
                        final(self).spec_current().height,
                    ),
                    _ => cur.y,
                }
            }),
            final(self).spec_layout() == old(self).spec_layout(),
            final(self).spec_clip() == old(self).spec_clip(),
            final(self).spec_max_rect() == old(self).spec_max_rect(),
            final(self).spec_cursor() == old(self).spec_cursor(),
            final(self).spec_layer() == old(self).spec_layer(),
            final(self).spec_id_source() == old(self).spec_id_source(),
    {
        let minx = if min.x <= self.max_rect.width {
            min.x
        } else {
            self.max_rect.width
        };
        let miny = if min.y <= self.max_rect.height {
            min.y
        } else {
            self.max_rect.height
        };
        let new_width = if self.current.width >= minx {
            self.current.width
        } else {
            minx
        };
        let new_height = if self.current.height >= miny {
            self.current.height
        } else {
            miny
        };
        match self.layout {
            Layout::TopLeftHorizontal | Layout::TopLeftVertical => {},
            Layout::TopRightHorizontal | Layout::TopRightVertical => {
                self.current.x = self.current.x.saturating_add(self.current.width).saturating_sub(
                    new_width,
                );
            },
            Layout::BottomLeftHorizontal | Layout::BottomLeftVertical => {
                self.current.y = self.current.y.saturating_add(self.current.height).saturating_sub(
                    new_height,
                );
            },
            Layout::BottomRightHorizontal | Layout::BottomRightVertical => {
                self.current.x = self.current.x.saturating_add(self.current.width).saturating_sub(
                    new_width,
                );
                self.current.y = self.current.y.saturating_add(self.current.height).saturating_sub(
                    new_height,
                );
            },
        }
        self.current.width = new_width;
        self.current.height = new_height;
    }

    /// A child cursor over `max_rect` with its own layout, a derived
    /// identity and the same layer; fold its accumulated rectangle back with
    /// [`Ui::allocate_area`] when its scope ends.
    pub fn child_ui(&mut self, max_rect: Rect, layout: Layout) -> (r: Ui)
        ensures
            r.spec_layout() == layout,
            r.spec_clip() == max_rect,
            r.spec_max_rect() == max_rect,
            r.spec_cursor() == spec_anchor_cursor(layout, max_rect),
            r.spec_current() == (Rect {
                x: spec_anchor_cursor(layout, max_rect).x,
                y: spec_anchor_cursor(layout, max_rect).y,
                width: 0u16,
                height: 0u16,
            }),
            r.spec_layer() == old(self).spec_layer(),
            r.cursor_in_max(),
            final(self).spec_layout() == old(self).spec_layout(),
            final(self).spec_clip() == old(self).spec_clip(),
            final(self).spec_max_rect() == old(self).spec_max_rect(),
            final(self).spec_cursor() == old(self).spec_cursor(),
            final(self).spec_current() == old(self).spec_current(),
            final(self).spec_layer() == old(self).spec_layer(),
    {
        let source = self.next_id_source();
        let layer = self.layer;
        Ui::new(layout, Id::from_u64(source).with("child"), max_rect, layer)
    }

    pub closed spec fn spec_id_source(self) -> u64 {
        self.next_id_source
    }

    /// Hand out the next derived identity source: a per-cursor counter that
    /// wraps around at the top of the 64-bit range.
    pub fn next_id_source(&mut self) -> (r: u64)
        ensures
            r == old(self).spec_id_source(),
            final(self).spec_id_source() == if old(self).spec_id_source() == u64::MAX {
                0u64
            } else {
                (old(self).spec_id_source() + 1) as u64
            },
            final(self).spec_layout() == old(self).spec_layout(),
            final(self).spec_clip() == old(self).spec_clip(),
            final(self).spec_max_rect() == old(self).spec_max_rect(),
            final(self).spec_cursor() == old(self).spec_cursor(),
            final(self).spec_current() == old(self).spec_current(),
            final(self).spec_layer() == old(self).spec_layer(),
    {
        let r = self.next_id_source;
        self.next_id_source = r.wrapping_add(1);
        r
    }
}

/// The model of a list of lines.
pub open spec fn lines_view(lines: Seq<Vec<char>>) -> Seq<Seq<char>> {
    lines.map_values(|v: Vec<char>| v@)
}

/// Copy one line.
fn clone_line(v: &Vec<char>) -> (r: Vec<char>)
    ensures
        r@ == v@,
{
    let n = v.len();
    let mut r: Vec<char> = Vec::new();
    let mut i: usize = 0;
    while i < n
        invariant
            i <= n,
            n == v@.len(),
            r@.len() == i,
            forall|k: int| 0 <= k < i ==> #[trigger] r@[k] == v@[k],
        decreases n - i,
    {
        r.push(v[i]);
        i += 1;
    }
    proof {
        assert(r@ =~= v@);
    }
    r
}

impl Ui {
    /// Lay out a styled run at `pos`: split it on newlines, size each line by
    /// its displayed width, stack the lines one row apart, and shift the
    /// whole block towards this cursor's anchor corner; [`spec_gallery`]
    /// gives the exact items.
    pub fn create_gallery_at(&self, pos: VecI2, text: &crate::style::StyledText) -> (g: Gallery)
        ensures
            g.bound == spec_gallery(self.spec_layout(), pos, text.text@, text.style).0,
            gallery_view(g.items@) == spec_gallery(self.spec_layout(), pos, text.text@, text.style).1,
    {
        let ghost target = spec_gallery(self.spec_layout(), pos, text.text@, text.style);

        // Split on newlines.
        let n = text.text.len();
        let mut lines: Vec<Vec<char>> = Vec::new();
        let mut cur: Vec<char> = Vec::new();
        let mut i: usize = 0;
        proof {
            assert(cur@ =~= Seq::<char>::empty());
            assert(lines_view(lines@) =~= Seq::<Seq<char>>::empty());
        }
        while i < n
            invariant
                i <= n,
                n == text.text@.len(),
                spec_split_rec(text.text@, i as int, cur@, lines_view(lines@))
                    == spec_split_lines(text.text@),
            decreases n - i,
        {
            let ghost lv = lines_view(lines@);
            let c = text.text[i];
            if c == '\n' {
                lines.push(cur);
                cur = Vec::new();
                proof {
                    assert(lines_view(lines@) =~= lv.push(lines@.last()@));
                }
            } else {
                cur.push(c);
            }
            i += 1;
        }
        let ghost lv_done = lines_view(lines@);
        lines.push(cur);
        proof {
            assert(lines_view(lines@) =~= lv_done.push(lines@.last()@));
            assert(lines_view(lines@) == spec_split_lines(text.text@));
        }

        // Line widths and the widest line, scanned back to front so the
        // running maximum matches the recursive definition.
        let m = lines.len();
        let mut widths: Vec<u16> = Vec::new();
        let mut k: usize = m;
        while k > 0
            invariant
                k <= m,
                m == lines@.len(),
                widths@.len() == m - k,
                forall|j: int|
                    0 <= j < widths@.len() ==> #[trigger] widths@[j] == spec_line_width(
                        lines_view(lines@)[m - 1 - j],
                    ),
            decreases k,
        {
            k -= 1;
            let w = crate::render::text_width(&lines[k]);
            widths.push(w);
            proof {
                assert(lines_view(lines@)[k as int] == lines@[k as int]@);
            }
        }
        let mut maxw: u16 = 0;
        let mut k: usize = m;
        while k > 0
            invariant
                k <= m,
                m == lines@.len(),
                widths@.len() == m,
                forall|j: int|
                    0 <= j < m ==> #[trigger] widths@[j] == spec_line_width(
                        lines_view(lines@)[m - 1 - j],
                    ),
                maxw == spec_max_line_width(lines_view(lines@), k as int),
            decreases k,
        {
            k -= 1;
            let w = widths[m - 1 - k];
            maxw = if w >= maxw {
                w
            } else {
                maxw
            };
        }

        let height: u16 = if m > 65535 {
            65535
        } else {
            m as u16
        };
        let shift: (u16, u16) = match self.layout {
            Layout::TopLeftHorizontal | Layout::TopLeftVertical => (0, 0),
            Layout::TopRightHorizontal | Layout::TopRightVertical => (maxw, 0),
            Layout::BottomLeftHorizontal | Layout::BottomLeftVertical => (0, height),
            Layout::BottomRightHorizontal | Layout::BottomRightVertical => (maxw, height),
        };
        let bx = pos.x.saturating_sub(shift.0);
        let by = pos.y.saturating_sub(shift.1);
        let bound = Rect { x: bx, y: by, width: maxw, height };

        // Assemble the items: the whole text first (zero-size, so it draws
        // nothing), then one item per line.
        let mut items: Vec<(Rect, crate::style::StyledText)> = Vec::new();
        items.push(
            (
                Rect { x: bx, y: by, width: 0, height: 0 },
                crate::style::StyledText { text: clone_line(&text.text), style: text.style },
            ),
        );
        proof {
            assert(gallery_view(items@) =~= target.1.subrange(0, 1));
        }
        let mut k: usize = 0;
        while k < m
            invariant
                k <= m,
                m == lines@.len(),
                m == lines_view(lines@).len(),
                lines_view(lines@) == spec_split_lines(text.text@),
                widths@.len() == m,
                forall|j: int|
                    0 <= j < m ==> #[trigger] widths@[j] == spec_line_width(
                        lines_view(lines@)[m - 1 - j],
                    ),
                target == spec_gallery(self.spec_layout(), pos, text.text@, text.style),
                shift == spec_gallery_shift(self.spec_layout(), maxw, height),
                maxw == spec_max_line_width(lines_view(lines@), 0),
                height == (if m > 65535 {
                    65535u16
                } else {
                    m as u16
                }),
                bx == sat_sub(pos.x, shift.0),
                by == sat_sub(pos.y, shift.1),
                items@.len() == k + 1,
                gallery_view(items@) == target.1.subrange(0, k + 1),
            decreases m - k,
        {
            let ghost gv = gallery_view(items@);
            let ky: u16 = if k > 65535 {
                65535
            } else {
                k as u16
            };
            let ly = pos.y.saturating_add(ky).saturating_sub(shift.1);
            let w = widths[m - 1 - k];
            items.push(
                (
                    Rect { x: bx, y: ly, width: w, height: 1 },
                    crate::style::StyledText { text: clone_line(&lines[k]), style: text.style },
                ),
            );
            proof {
                assert(lines_view(lines@)[k as int] == lines@[k as int]@);
                assert(gallery_view(items@) =~= gv.push(
                    (Rect { x: bx, y: ly, width: w, height: 1u16 }, lines@[k as int]@, text.style),
                ));
                assert(gallery_view(items@) =~= target.1.subrange(0, k + 2));
            }
            k += 1;
        }
        proof {
            assert(target.1.subrange(0, m + 1) =~= target.1);
        }
        Gallery { bound, items }
    }

    /// [`Ui::create_gallery_at`] at the current cursor.
    pub fn create_gallery(&self, text: &crate::style::StyledText) -> (g: Gallery)
        ensures
            g.bound == spec_gallery(
                self.spec_layout(),
                self.spec_cursor(),
                text.text@,
                text.style,
            ).0,
            gallery_view(g.items@) == spec_gallery(
                self.spec_layout(),
                self.spec_cursor(),
                text.text@,
                text.style,
            ).1,
    {
        let cursor = self.get_cursor();
        self.create_gallery_at(cursor, text)
    }
}

/// Allocating a zero-size request, in any of the eight layout directions,
/// returns a zero-size rectangle and moves the cursor on neither axis (in
/// particular, the cross-axis position is untouched).
pub proof fn law_allocate_zero(ui: Ui)
    requires
        ui.cursor_in_max(),
    ensures
        ui.spec_allocate_size(VecI2 { x: 0u16, y: 0u16 }).1.width == 0,
        ui.spec_allocate_size(VecI2 { x: 0u16, y: 0u16 }).1.height == 0,
        ui.spec_allocate_size(VecI2 { x: 0u16, y: 0u16 }).0.spec_cursor() == ui.spec_cursor(),
{
    let zero = VecI2 { x: 0u16, y: 0u16 };
    assert(Ui::spec_moved_cursor(ui.spec_layout(), ui.spec_cursor(), zero) == ui.spec_cursor());
    assert(Ui::spec_clamp_to(ui.spec_max_rect(), ui.spec_cursor()) == ui.spec_cursor());
}


/// Which neighbours a box-drawing vertex connects to.
#[derive(Debug, PartialEq, Eq, Structural, Clone, Copy)]
pub struct NodeAttachements {
    pub up: bool,
    pub left: bool,
    pub right: bool,
    pub down: bool,
}

/// One attachment flag of a vertex.
#[derive(Debug, PartialEq, Eq, Structural, Clone, Copy)]
pub enum AttachDir {
    Up,
    Down,
    Left,
    Right,
}

/// `n` with the flag for `d` set.
pub open spec fn spec_with_flag(n: NodeAttachements, d: AttachDir) -> NodeAttachements {
    match d {
        AttachDir::Up => NodeAttachements { up: true, ..n },
        AttachDir::Down => NodeAttachements { down: true, ..n },
        AttachDir::Left => NodeAttachements { left: true, ..n },
        AttachDir::Right => NodeAttachements { right: true, ..n },
    }
}

/// The first vertex record for `p`, if any.
pub open spec fn spec_find_vertex(vs: Seq<(VecI2, NodeAttachements)>, p: VecI2) -> Option<int>
    decreases vs.len(),
{
    if vs.len() == 0 {
        Option::None
    } else if vs[0].0 == p {
        Option::Some(0)
    } else {
        match spec_find_vertex(vs.drop_first(), p) {
            Option::Some(i) => Option::Some(i + 1),
            Option::None => Option::None,
        }
    }
}

/// The vertex list after setting flag `d` on `p`'s record (inserting a fresh
/// record when none exists).
pub open spec fn spec_marked(
    vs: Seq<(VecI2, NodeAttachements)>,
    p: VecI2,
    d: AttachDir,
) -> Seq<(VecI2, NodeAttachements)> {
    match spec_find_vertex(vs, p) {
        Option::Some(i) => vs.update(i, (p, spec_with_flag(vs[i].1, d))),
        Option::None => vs.push(
            (p, spec_with_flag(NodeAttachements { up: false, left: false, right: false, down: false }, d)),
        ),
    }
}

/// The box-drawing glyph for a vertex's attachment pattern, from `set`; an
/// unexpected pattern falls back to a star.
pub open spec fn spec_node_glyph(n: NodeAttachements, set: crate::symbols::LineSet) -> char {
    if n.up && !n.right && n.down && !n.left {
        set.vertical
    } else if n.up && n.right && n.down && !n.left {
        set.vertical_right
    } else if n.up && !n.right && n.down && n.left {
        set.vertical_left
    } else if !n.up && n.right && !n.down && n.left {
        set.horizontal
    } else if n.up && n.right && !n.down && n.left {
        set.horizontal_down
    } else if !n.up && n.right && n.down && n.left {
        set.horizontal_up
    } else if n.up && n.right && !n.down && !n.left {
        set.top_right
    } else if !n.up && n.right && n.down && !n.left {
        set.bottom_right
    } else if !n.up && !n.right && n.down && n.left {
        set.bottom_left
    } else if n.up && !n.right && !n.down && n.left {
        set.top_left
    } else if n.up && n.right && n.down && n.left {
        set.cross
    } else {
        '*'
    }
}

/// The grid after drawing the vertices from index `i` on: one glyph per
/// vertex, on layer 1, unclipped.
pub open spec fn spec_draw_boxes(
    grid: Seq<crate::screen::SlotModel>,
    dims: VecI2,
    vs: Seq<(VecI2, NodeAttachements)>,
    style: crate::style::Style,
    set: crate::symbols::LineSet,
    i: int,
) -> Seq<crate::screen::SlotModel>
    decreases vs.len() - i,
{
    if i < 0 || i >= vs.len() {
        grid
    } else {
        let v = vs[i];
        let g1 = crate::screen::spec_push_text(
            grid,
            dims,
            seq![spec_node_glyph(v.1, set)],
            0,
            v.0.x,
            v.0.y,
            Seq::empty(),
            style,
            1u8,
            Rect { x: 0u16, y: 0u16, width: u16::MAX, height: u16::MAX },
        ).0;
        spec_draw_boxes(g1, dims, vs, style, set, i + 1)
    }
}

/// An area outlined by straight lines: the vertices met so far with their
/// attachment patterns, and the lines themselves (with whether each is
/// horizontal).
#[derive(Debug)]
pub struct BoxedArea {
    vertices: Vec<(VecI2, NodeAttachements)>,
    lines: Vec<(VecI2, VecI2, bool)>,
}

impl BoxedArea {
    pub closed spec fn spec_vertices(self) -> Seq<(VecI2, NodeAttachements)> {
        self.vertices@
    }

    pub closed spec fn spec_lines(self) -> Seq<(VecI2, VecI2, bool)> {
        self.lines@
    }

    pub fn new() -> (r: Self)
        ensures
            r.spec_vertices() == Seq::<(VecI2, NodeAttachements)>::empty(),
            r.spec_lines() == Seq::<(VecI2, VecI2, bool)>::empty(),
    {
        BoxedArea { vertices: Vec::new(), lines: Vec::new() }
    }

    /// Set flag `d` on `p`'s vertex record.
    fn mark_vertex(&mut self, p: VecI2, d: AttachDir)
        ensures
            final(self).spec_vertices() == spec_marked(old(self).spec_vertices(), p, d),
            final(self).spec_lines() == old(self).spec_lines(),
    {
        let n = self.vertices.len();
        let mut i: usize = 0;
        proof {
            assert(self.vertices@.subrange(0, n as int) =~= self.vertices@);
        }
        while i < n
            invariant
                i <= n,
                n == self.vertices@.len(),
                self.vertices@ == old(self).vertices@,
                self.lines@ == old(self).lines@,
                forall|k: int| 0 <= k < i ==> (#[trigger] self.vertices@[k]).0 != p,
                spec_find_vertex(self.vertices@, p) == match spec_find_vertex(
                    self.vertices@.subrange(i as int, n as int),
                    p,
                ) {
                    Option::Some(j) => Option::Some(j + i),
                    Option::None => Option::None::<int>,
                },
            decreases n - i,
        {
            proof {
                assert(self.vertices@.subrange(i as int, n as int)[0] == self.vertices@[i as int]);
                assert(self.vertices@.subrange(i as int, n as int).drop_first() =~= self.vertices@
                    .subrange(i + 1, n as int));
            }
            if self.vertices[i].0 == p {
                proof {
                    assert(spec_find_vertex(self.vertices@.subrange(i as int, n as int), p)
                        == Option::Some(0int));
                    assert(spec_find_vertex(self.vertices@, p) == Option::Some(i as int));
                }
                let node = self.vertices[i].1;
                let marked = match d {
                    AttachDir::Up => NodeAttachements { up: true, ..node },
                    AttachDir::Down => NodeAttachements { down: true, ..node },
                    AttachDir::Left => NodeAttachements { left: true, ..node },
                    AttachDir::Right => NodeAttachements { right: true, ..node },
                };
                self.vertices.set(i, (p, marked));
                return ;
            }
            i += 1;
        }
        proof {
            assert(self.vertices@.subrange(n as int, n as int) =~= Seq::<
                (VecI2, NodeAttachements),
            >::empty());
        }
        let marked = match d {
            AttachDir::Up => NodeAttachements { up: true, left: false, right: false, down: false },
            AttachDir::Down => NodeAttachements {
                up: false,
                left: false,
                right: false,
                down: true,
            },
            AttachDir::Left => NodeAttachements { up: false, left: true, right: false, down: false },
            AttachDir::Right => NodeAttachements {
                up: false,
                left: false,
                right: true,
                down: false,
            },
        };
        self.vertices.push((p, marked));
    }

    /// Record one straight line between `p1` and `p2` (horizontal or
    /// vertical), marking the attachment flags of both endpoints; a
    /// degenerate line (both endpoints equal) records nothing.
    pub fn add_line(&mut self, p1: VecI2, p2: VecI2)
        requires
            p1.x == p2.x || p1.y == p2.y,
        ensures
            p1 == p2 ==> final(self).spec_vertices() == old(self).spec_vertices() && final(self).spec_lines() == old(self).spec_lines(),
            p1 != p2 && p1.x == p2.x ==> {
                let d1 = if p1.y > p2.y {
                    AttachDir::Down
                } else {
                    AttachDir::Up
                };
                let d2 = if p1.y > p2.y {
                    AttachDir::Up
                } else {
                    AttachDir::Down
                };
                &&& final(self).spec_vertices() == spec_marked(
                    spec_marked(old(self).spec_vertices(), p1, d1),
                    p2,
                    d2,
                )
                &&& final(self).spec_lines() == old(self).spec_lines().push((p1, p2, false))
            },
            p1 != p2 && p1.x != p2.x ==> {
                let d1 = if p1.x > p2.x {
                    AttachDir::Right
                } else {
                    AttachDir::Left
                };
                let d2 = if p1.x > p2.x {
                    AttachDir::Left
                } else {
                    AttachDir::Right
                };
                &&& final(self).spec_vertices() == spec_marked(
                    spec_marked(old(self).spec_vertices(), p1, d1),
                    p2,
                    d2,
                )
                &&& final(self).spec_lines() == old(self).spec_lines().push((p1, p2, true))
            },
    {
        if p1 == p2 {
            return ;
        }
        if p1.x == p2.x {
            if p1.y > p2.y {
                self.mark_vertex(p1, AttachDir::Down);
                self.mark_vertex(p2, AttachDir::Up);
            } else {
                self.mark_vertex(p1, AttachDir::Up);
                self.mark_vertex(p2, AttachDir::Down);
            }
            self.lines.push((p1, p2, false));
        } else {
            if p1.x > p2.x {
                self.mark_vertex(p1, AttachDir::Right);
                self.mark_vertex(p2, AttachDir::Left);
            } else {
                self.mark_vertex(p1, AttachDir::Left);
                self.mark_vertex(p2, AttachDir::Right);
            }
            self.lines.push((p1, p2, true));
        }
    }

    /// Draw every vertex's junction glyph into the current frame, on layer 1.
    pub fn draw(
        &self,
        ctx: &mut crate::context::Context,
        style: crate::style::Style,
        set: &crate::symbols::LineSet,
    )
        requires
            old(ctx).wf(),
        ensures
            final(ctx).wf(),
            final(ctx).spec_current_screen().grid() == spec_draw_boxes(
                old(ctx).spec_current_screen().grid(),
                old(ctx).spec_current_screen().spec_size(),
                self.spec_vertices(),
                style,
                *set,
                0,
            ),
            final(ctx).spec_current_screen().spec_size() == old(ctx).spec_current_screen().spec_size(),
            final(ctx).spec_last_screen() == old(ctx).spec_last_screen(),
            final(ctx).spec_memory() == old(ctx).spec_memory(),
            final(ctx).spec_focus() == old(ctx).spec_focus(),
            final(ctx).spec_input() == old(ctx).spec_input(),
            final(ctx).spec_max_rect() == old(ctx).spec_max_rect(),
            final(ctx).spec_used_ids() == old(ctx).spec_used_ids(),
    {
        let ghost g0 = ctx.spec_current_screen().grid();
        let ghost dims = ctx.spec_current_screen().spec_size();
        let n = self.vertices.len();
        let mut i: usize = 0;
        while i < n
            invariant
                i <= n,
                ctx.wf(),
                n == self.vertices@.len(),
                dims == ctx.spec_current_screen().spec_size(),
                spec_draw_boxes(
                    ctx.spec_current_screen().grid(),
                    dims,
                    self.spec_vertices(),
                    style,
                    *set,
                    i as int,
                ) == spec_draw_boxes(g0, dims, self.spec_vertices(), style, *set, 0),
                ctx.spec_last_screen() == old(ctx).spec_last_screen(),
                ctx.spec_memory() == old(ctx).spec_memory(),
                ctx.spec_focus() == old(ctx).spec_focus(),
                ctx.spec_input() == old(ctx).spec_input(),
                ctx.spec_max_rect() == old(ctx).spec_max_rect(),
                ctx.spec_used_ids() == old(ctx).spec_used_ids(),
            decreases n - i,
        {
            let v = self.vertices[i];
            let node = v.1;
            let glyph: char = if node.up && !node.right && node.down && !node.left {
                set.vertical
            } else if node.up && node.right && node.down && !node.left {
                set.vertical_right
            } else if node.up && !node.right && node.down && node.left {
                set.vertical_left
            } else if !node.up && node.right && !node.down && node.left {
                set.horizontal
            } else if node.up && node.right && !node.down && node.left {
                set.horizontal_down
            } else if !node.up && node.right && node.down && node.left {
                set.horizontal_up
            } else if node.up && node.right && !node.down && !node.left {
                set.top_right
            } else if !node.up && node.right && node.down && !node.left {
                set.bottom_right
            } else if !node.up && !node.right && node.down && node.left {
                set.bottom_left
            } else if node.up && !node.right && !node.down && node.left {
                set.top_left
            } else if node.up && node.right && node.down && node.left {
                set.cross
            } else {
                '*'
            };
            let mut text: Vec<char> = Vec::new();
            text.push(glyph);
            proof {
                assert(text@ =~= seq![spec_node_glyph(v.1, *set)]);
            }
            ctx.draw(&text, style, v.0, 1, Rect { x: 0, y: 0, width: u16::MAX, height: u16::MAX });
            i += 1;
        }
    }
}


impl Ui {
    /// Draw a styled run through this cursor's layer; see
    /// [`crate::context::Context::draw`].
    pub fn draw(
        &self,
        ctx: &mut crate::context::Context,
        text: &Vec<char>,
        style: crate::style::Style,
        start: VecI2,
        clip: Rect,
    )
        requires
            old(ctx).wf(),
            self.spec_layer() >= 1,
        ensures
            final(ctx).wf(),
            final(ctx).spec_current_screen().grid() == crate::screen::spec_push_text(
                old(ctx).spec_current_screen().grid(),
                old(ctx).spec_current_screen().spec_size(),
                text@,
                0,
                start.x,
                start.y,
                Seq::empty(),
                style,
                self.spec_layer(),
                clip,
            ).0,
            final(ctx).spec_current_screen().spec_size() == old(
                ctx,
            ).spec_current_screen().spec_size(),
            final(ctx).spec_last_screen() == old(ctx).spec_last_screen(),
            final(ctx).spec_memory() == old(ctx).spec_memory(),
            final(ctx).spec_focus() == old(ctx).spec_focus(),
            final(ctx).spec_input() == old(ctx).spec_input(),
    {
        let layer = self.layer;
        ctx.draw(text, style, start, layer, clip);
    }

    /// Draw a gallery through this cursor's layer; see
    /// [`crate::context::Context::draw_gallery`].
    pub fn draw_gallery(&self, ctx: &mut crate::context::Context, gallery: &Gallery)
        requires
            old(ctx).wf(),
            self.spec_layer() >= 1,
        ensures
            final(ctx).wf(),
            final(ctx).spec_current_screen().grid() == crate::context::spec_draw_gallery(
                old(ctx).spec_current_screen().grid(),
                old(ctx).spec_current_screen().spec_size(),
                gallery_view(gallery.items@),
                self.spec_layer(),
                0,
            ),
            final(ctx).spec_current_screen().spec_size() == old(
                ctx,
            ).spec_current_screen().spec_size(),
            final(ctx).spec_last_screen() == old(ctx).spec_last_screen(),
            final(ctx).spec_memory() == old(ctx).spec_memory(),
            final(ctx).spec_focus() == old(ctx).spec_focus(),
            final(ctx).spec_input() == old(ctx).spec_input(),
    {
        let layer = self.layer;
        ctx.draw_gallery(gallery, layer);
    }

    /// Resolve this frame's interaction for a widget allocated `area`; see
    /// [`crate::context::Context::interact`].
    pub fn interact(
        &self,
        ctx: &mut crate::context::Context,
        id: Id,
        area: Rect,
    ) -> (r: crate::response::Response)
        requires
            old(ctx).wf(),
        ensures
            final(ctx).wf(),
            r.id == id,
            r.rect == area,
    {
        ctx.interact(id, area)
    }
}

} // verus!
