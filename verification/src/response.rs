//! What an interactive widget learns from one frame's input: hover, clicks
//! and focus, resolved against the rectangle it was allocated.

use vstd::prelude::*;
use crate::geometry::{Rect, VecI2};
use crate::id::Id;
use crate::input::{MouseButtonState, MouseButtons};

verus! {

/// The interaction result for one widget and one frame.
#[derive(Debug, PartialEq, Clone, Copy)]
pub struct Response {
    pub hovered: bool,
    pub buttons: MouseButtons,
    pub id: Id,
    pub rect: Rect,
    pub mouse_pos: Option<VecI2>,
    pub focused: bool,
}

impl Response {
    /// A response for `rect` under `id`: hovered exactly when the mouse is
    /// known and inside the rectangle; no buttons engaged yet.
    pub fn new(rect: Rect, id: Id, mouse: Option<VecI2>) -> (r: Self)
        ensures
            r.hovered == match mouse {
                Some(m) => rect.spec_contains(m),
                None => false,
            },
            r.buttons == MouseButtons::all_unpressed_spec(),
            r.id == id,
            r.rect == rect,
            r.mouse_pos == mouse,
            !r.focused,
    {
        let hovered = match mouse {
            Some(m) => rect.contains(m),
            None => false,
        };
        Self {
            hovered,
            buttons: MouseButtons::all_unpressed(),
            id,
            rect,
            mouse_pos: mouse,
            focused: false,
        }
    }

    pub fn hovered(&self) -> (r: bool)
        ensures
            r == self.hovered,
    {
        self.hovered
    }

    /// Whether the primary button was released over the widget this frame
    /// (plain or at the end of a drag).
    pub fn released(&self) -> (r: bool)
        ensures
            r == (self.buttons.primary matches MouseButtonState::Released(_)
                || self.buttons.primary matches MouseButtonState::DragReleased { .. }),
    {
        match self.buttons.primary {
            MouseButtonState::Released(_) => true,
            MouseButtonState::DragReleased { .. } => true,
            _ => false,
        }
    }

    /// Whether the primary button went down on the widget this frame.
    pub fn clicked(&self) -> (r: bool)
        ensures
            r == (self.buttons.primary matches MouseButtonState::Down(_)),
    {
        match self.buttons.primary {
            MouseButtonState::Down(_) => true,
            _ => false,
        }
    }

    /// Whether the primary button is held on the widget.
    pub fn pressed(&self) -> (r: bool)
        ensures
            r == self.buttons.primary.spec_is_down(),
    {
        self.buttons.primary.is_down()
    }
}

} // verus!
