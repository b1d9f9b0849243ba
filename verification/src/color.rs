//! Colours as four 8-bit channels.

use vstd::prelude::*;

verus! {

/// A colour: red, green, blue and opacity, each from 0 to 255.
#[derive(Clone, Copy, Debug, PartialEq, Eq, Structural)]
pub struct Color {
    pub r: u8,
    pub g: u8,
    pub b: u8,
    pub a: u8,
}

impl Color {
    /// Opaque white.
    pub open spec fn spec_white() -> Color {
        Color { r: 255, g: 255, b: 255, a: 255 }
    }

    /// Opaque black.
    pub open spec fn spec_black() -> Color {
        Color { r: 0, g: 0, b: 0, a: 255 }
    }

    /// Opaque red.
    pub open spec fn spec_red() -> Color {
        Color { r: 255, g: 0, b: 0, a: 255 }
    }

    /// Opaque blue.
    pub open spec fn spec_blue() -> Color {
        Color { r: 0, g: 0, b: 255, a: 255 }
    }

    /// An opaque grey of the given brightness.
    pub open spec fn spec_gray(level: u8) -> Color {
        Color { r: level, g: level, b: level, a: 255 }
    }

    /// Black of the given opacity.
    pub open spec fn spec_shade(alpha: u8) -> Color {
        Color { r: 0, g: 0, b: 0, a: alpha }
    }

    /// Opaque white.
    #[verifier::when_used_as_spec(spec_white)]
    pub fn white() -> (c: Color)
        ensures
            c == Color::spec_white(),
    {
        Color { r: 255, g: 255, b: 255, a: 255 }
    }

    /// Opaque black.
    #[verifier::when_used_as_spec(spec_black)]
    pub fn black() -> (c: Color)
        ensures
            c == Color::spec_black(),
    {
        Color { r: 0, g: 0, b: 0, a: 255 }
    }

    /// Opaque red.
    #[verifier::when_used_as_spec(spec_red)]
    pub fn red() -> (c: Color)
        ensures
            c == Color::spec_red(),
    {
        Color { r: 255, g: 0, b: 0, a: 255 }
    }

    /// Opaque blue.
    #[verifier::when_used_as_spec(spec_blue)]
    pub fn blue() -> (c: Color)
        ensures
            c == Color::spec_blue(),
    {
        Color { r: 0, g: 0, b: 255, a: 255 }
    }

    /// An opaque grey of the given brightness.
    #[verifier::when_used_as_spec(spec_gray)]
    pub fn gray(level: u8) -> (c: Color)
        ensures
            c == Color::spec_gray(level),
    {
        Color { r: level, g: level, b: level, a: 255 }
    }

    /// Black of the given opacity: it darkens what lies beneath it.
    #[verifier::when_used_as_spec(spec_shade)]
    pub fn shade(alpha: u8) -> (c: Color)
        ensures
            c == Color::spec_shade(alpha),
    {
        Color { r: 0, g: 0, b: 0, a: alpha }
    }
}

} // verus!
