//! Drawing commands: what a frame draws, in order, as plain values.
//!
//! Widgets do not draw themselves onto a display; they append commands to the [`Ui`]'s list,
//! and the application replays the list onto its embedded-graphics draw target.
//!
//! [`Ui`]: crate::ui::Ui

use crate::geometry::{Point, Rectangle};
use crate::text::MonoFont;
use vstd::prelude::*;

verus! {

/// Fill and stroke of a primitive shape.
#[derive(Debug, Clone, Copy, PartialEq, Eq)]
pub struct PrimitiveStyle<COL> {
    pub fill_color: Option<COL>,
    pub stroke_color: Option<COL>,
    pub stroke_width: u32,
}

impl<COL: Copy> PrimitiveStyle<COL> {
    /// A filled shape with a border.
    pub fn filled_with_border(fill: COL, stroke: COL, stroke_width: u32) -> (s: Self)
        ensures
            s == (PrimitiveStyle { fill_color: Some(fill), stroke_color: Some(stroke), stroke_width }),
    {
        PrimitiveStyle { fill_color: Some(fill), stroke_color: Some(stroke), stroke_width }
    }

    /// A filled shape without a border.
    pub fn with_fill(fill: COL) -> (s: Self)
        ensures
            s == (PrimitiveStyle { fill_color: Some(fill), stroke_color: None::<COL>, stroke_width: 0 }),
    {
        PrimitiveStyle { fill_color: Some(fill), stroke_color: None, stroke_width: 0 }
    }

    /// An outline only.
    pub fn with_stroke(stroke: COL, stroke_width: u32) -> (s: Self)
        ensures
            s == (PrimitiveStyle { fill_color: None::<COL>, stroke_color: Some(stroke), stroke_width }),
    {
        PrimitiveStyle { fill_color: None, stroke_color: Some(stroke), stroke_width }
    }
}

/// An icon of the iconoir set, by its path below the size module (such as
/// `"actions::Check"`) and its size in pixels.
#[derive(Debug, Clone, Copy, PartialEq, Eq)]
pub struct Icon {
    pub name: &'static str,
    pub size: u32,
}

impl Icon {
    pub fn new(name: &'static str, size: u32) -> (i: Icon)
        ensures
            i.name == name,
            i.size == size,
    {
        Icon { name, size }
    }
}

/// Where the vertical position of a text refers to.
#[derive(Debug, Clone, Copy, PartialEq, Eq)]
pub enum TextBaseline {
    /// The top of the glyphs.
    Top,
    /// The baseline of the glyphs.
    Alphabetic,
}

/// One step of drawing a frame.
#[derive(Debug, Clone)]
pub enum DrawCommand<COL> {
    /// Begin drawing a widget in `area`; with `buffered`, the following shapes go to the
    /// framebuffer until [`DrawCommand::Finalize`].
    StartDrawing { area: Rectangle, buffered: bool },
    /// Fill the framebuffer with a color.
    ClearBuffer { color: COL },
    /// Flush the framebuffer to the display.
    Finalize,
    /// A rectangle.
    Rect { rect: Rectangle, style: PrimitiveStyle<COL> },
    /// A rectangle with rounded corners of the given radius.
    RoundedRect { rect: Rectangle, radius: u32, style: PrimitiveStyle<COL> },
    /// A circle given by its center and diameter.
    Circle { center: Point, diameter: u32, style: PrimitiveStyle<COL> },
    /// A straight line.
    Line { start: Point, end: Point, style: PrimitiveStyle<COL> },
    /// A single text.
    Text {
        text: String,
        position: Point,
        font: MonoFont,
        color: COL,
        baseline: TextBaseline,
        centered: bool,
    },
    /// An icon with its top left corner at `top_left`.
    Icon { icon: Icon, top_left: Point, color: COL },
    /// The following commands, up to [`DrawCommand::EndPopupBuffer`], draw into the popup
    /// buffer, which covers `area`.
    BeginPopupBuffer { area: Rectangle },
    /// Ends the commands that draw into the popup buffer.
    EndPopupBuffer,
    /// Draw what the popup buffer holds onto the display, with its top left corner at `top_left`
    /// and the size `area.size`.
    Popup { area: Rectangle },
}

} // verus!
