//! Overlay colours as linear RGBA channels in thousandths.

use vstd::prelude::*;
use crate::math::Vec4;

verus! {

/// A colour; each channel runs from 0 to 1000.
#[derive(Clone, Copy, Debug, PartialEq, Eq, Structural)]
pub struct Color {
    pub r: i32,
    pub g: i32,
    pub b: i32,
    pub a: i32,
}

impl Color {
    pub open spec fn red_spec() -> Color {
        Color { r: 1000, g: 0, b: 0, a: 1000 }
    }

    pub open spec fn green_spec() -> Color {
        Color { r: 0, g: 1000, b: 0, a: 1000 }
    }

    pub open spec fn blue_spec() -> Color {
        Color { r: 0, g: 0, b: 1000, a: 1000 }
    }

    pub open spec fn black_spec() -> Color {
        Color { r: 0, g: 0, b: 0, a: 1000 }
    }

    #[verifier::when_used_as_spec(red_spec)]
    pub fn red() -> (c: Color)
        ensures
            c == Color::red_spec(),
    {
        Color { r: 1000, g: 0, b: 0, a: 1000 }
    }

    #[verifier::when_used_as_spec(green_spec)]
    pub fn green() -> (c: Color)
        ensures
            c == Color::green_spec(),
    {
        Color { r: 0, g: 1000, b: 0, a: 1000 }
    }

    #[verifier::when_used_as_spec(blue_spec)]
    pub fn blue() -> (c: Color)
        ensures
            c == Color::blue_spec(),
    {
        Color { r: 0, g: 0, b: 1000, a: 1000 }
    }

    #[verifier::when_used_as_spec(black_spec)]
    pub fn black() -> (c: Color)
        ensures
            c == Color::black_spec(),
    {
        Color { r: 0, g: 0, b: 0, a: 1000 }
    }

    /// The four channels in the order red, green, blue, alpha.
    pub open spec fn channels(self) -> Vec4 {
        Vec4 { x: self.r, y: self.g, z: self.b, w: self.a }
    }

    /// The four channels as the overlay buffers hold them.
    pub fn as_linear_rgba(self) -> (v: Vec4)
        ensures
            v == self.channels(),
    {
        Vec4 { x: self.r, y: self.g, z: self.b, w: self.a }
    }
}

} // verus!
