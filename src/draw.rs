use vstd::prelude::*;
use crate::style::TextStyle;

verus! {

/// One drawing primitive, in the order in which the host is to draw it.
#[derive(Clone, PartialEq, Eq, Debug)]
pub enum Command {
    /// A filled rectangle.
    Rectangle { x: i64, y: i64, w: i64, h: i64, color: u32 },
    /// The outline of a rectangle.
    RectangleLines { x: i64, y: i64, w: i64, h: i64, thickness: i64, color: u32 },
    /// A line segment.
    Line { x1: i64, y1: i64, x2: i64, y2: i64, thickness: i64, color: u32 },
    /// A label whose baseline starts at (`x`, `y`).
    Text { text: String, x: i64, y: i64, style: TextStyle },
    /// A check mark in the square at (`x`, `y`) of side `size`.
    Checkmark { x: i64, y: i64, size: i64, color: u32 },
}

/// What a widget reports when the user acted on it. `menu` and `item` are the
/// positions of the menu in the bar and of the widget in the menu.
#[derive(Clone, PartialEq, Eq, Debug)]
pub enum Event {
    /// A button was pressed.
    Clicked { menu: usize, item: usize },
    /// A checkbox was toggled; `actif` is its new value.
    Toggled { menu: usize, item: usize, actif: bool },
    /// A radio option was chosen; `value` is its text.
    Selected { menu: usize, item: usize, value: String },
}

/// Everything one frame of the bar produced: what to draw, in order, and
/// what the user did.
#[derive(Clone, Debug)]
pub struct Frame {
    pub commands: Vec<Command>,
    pub events: Vec<Event>,
}

} // verus!
