//! RGBA colors and the clear options of a render pass.

use vstd::prelude::*;
use crate::scalar::Fixed;

verus! {

/// An RGBA color; each channel is a [`Fixed`] in `[0, 1]` by convention,
/// though nothing in the pipeline model depends on the range.
#[derive(Clone, Copy, Debug, PartialEq, Eq, Structural)]
pub struct Color {
    /// Red channel.
    pub r: Fixed,
    /// Green channel.
    pub g: Fixed,
    /// Blue channel.
    pub b: Fixed,
    /// Alpha channel.
    pub a: Fixed,
}

impl Color {
    /// Builds a color from its four channels.
    pub fn new(r: Fixed, g: Fixed, b: Fixed, a: Fixed) -> (c: Color)
        ensures
            c == (Color { r, g, b, a }),
    {
        Color { r, g, b, a }
    }
}

/// What `begin` does to the render target: clear it to a color, or keep it.
#[derive(Clone, Copy, Debug, PartialEq, Eq)]
pub struct ClearOptions {
    /// `Some(c)` clears the target to `c` before drawing; `None` keeps it.
    pub color: Option<Color>,
}

impl ClearOptions {
    /// Clear options that reset the target to `c`.
    pub fn color(c: Color) -> (o: ClearOptions)
        ensures
            o.color == Some(c),
    {
        ClearOptions { color: Some(c) }
    }

    /// Clear options that leave the target untouched.
    pub fn none() -> (o: ClearOptions)
        ensures
            o.color is None,
    {
        ClearOptions { color: None }
    }
}

} // verus!
