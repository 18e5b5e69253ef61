//! A top-level container: picks the layout of a frame's root cursor.

use vstd::prelude::*;
use crate::context::Context;
use crate::id::Id;
use crate::ui::{Layout, Ui};

verus! {

/// The configuration of a frame's root layout cursor.
pub struct Frame {
    layout: Option<Layout>,
}

impl Frame {
    pub closed spec fn spec_layout(self) -> Option<Layout> {
        self.layout
    }

    pub fn new() -> (r: Self)
        ensures
            r.spec_layout() is None,
    {
        Frame { layout: None }
    }

    pub fn set_layout(self, layout: Layout) -> (r: Self)
        ensures
            r.spec_layout() == Some(layout),
    {
        Frame { layout: Some(layout) }
    }

    /// The root cursor over the whole screen, in the configured layout
    /// (top-left vertical when none was set), on the middle layer; run the
    /// frame's widgets through it, then render.
    pub fn begin(&self, ctx: &Context) -> (r: Ui)
        ensures
            r.spec_layout() == self.spec_layout().unwrap_or(Layout::TopLeftVertical),
            r.spec_clip() == ctx.spec_max_rect(),
            r.spec_max_rect() == ctx.spec_max_rect(),
            r.spec_layer() == 128u8,
            r.cursor_in_max(),
    {
        let layout = match self.layout {
            Some(l) => l,
            None => Layout::TopLeftVertical,
        };
        Ui::new(layout, Id::new("frame"), ctx.screen_rect(), 128)
    }
}

} // verus!
