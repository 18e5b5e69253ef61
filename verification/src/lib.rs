//! Immediate-mode terminal user-interface core: a layered cell-buffer screen
//! model with a frame-to-frame diff renderer, a quadrant layout engine,
//! persistent widget identity and memory, and focus navigation.

pub mod context;
pub mod focus;
pub mod frame;
pub mod geometry;
pub mod id;
pub mod input;
pub mod memory;
pub mod render;
pub mod response;
pub mod screen;
pub mod style;
pub mod ui;
pub mod symbols;
