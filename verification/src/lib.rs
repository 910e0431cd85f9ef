//! The message bus of a desktop status bar: the wire frame of its control
//! socket, the rules that turn client requests and probe readings into
//! messages, and the state that those messages update.

use vstd::prelude::*;

pub mod animate;
pub mod bar;
pub mod error;
pub mod json;
pub mod message;
pub mod number;
pub mod r3ipc;
pub mod sensors;
pub mod store;
pub mod text;

verus! {

/// The side of the bar from which a gauge is laid out.
#[derive(PartialEq, Eq, Structural, Clone, Copy, Debug)]
pub enum Orientation {
    Left,
    Right,
}

/// How wide a gauge may be, and on which side of the bar it stands.
#[derive(Debug, Clone, Copy, PartialEq, Eq)]
pub struct Layout {
    /// The width of the gauge; without one the gauge is as wide as what it
    /// shows.
    pub width: Option<u32>,
    /// The least width of the gauge.
    pub minwidth: Option<u32>,
    /// The greatest width of the gauge.
    pub maxwidth: Option<u32>,
    /// A change of width up to this size does not make the gauge narrower.
    pub smoothwidth: Option<u32>,
    pub orientation: Orientation,
}

impl Layout {
    /// A gauge on the right, as wide as what it shows, smoothed by 4.
    pub fn new() -> (layout: Layout)
        ensures
            layout.width is None,
            layout.minwidth is None,
            layout.maxwidth is None,
            layout.smoothwidth == Some(4u32),
            layout.orientation == Orientation::Right,
    {
        Layout {
            width: None,
            minwidth: None,
            maxwidth: None,
            smoothwidth: Some(4),
            orientation: Orientation::Right,
        }
    }

    /// The same layout with the given width.
    pub fn with_width(self, width: Option<u32>) -> (layout: Layout)
        ensures
            layout == (Layout { width, ..self }),
    {
        let mut layout = self;
        layout.width = width;
        layout
    }

    /// The same layout with the given least width.
    pub fn with_minwidth(self, width: Option<u32>) -> (layout: Layout)
        ensures
            layout == (Layout { minwidth: width, ..self }),
    {
        let mut layout = self;
        layout.minwidth = width;
        layout
    }

    /// The same layout on the given side.
    pub fn with_orientation(self, o: Orientation) -> (layout: Layout)
        ensures
            layout == (Layout { orientation: o, ..self }),
    {
        let mut layout = self;
        layout.orientation = o;
        layout
    }
}

} // verus!
