//! The color value types: RGBA channels, exact fractional channels for the
//! derived color spaces, and the parser's error type.

use vstd::prelude::*;

verus! {

/// Represents a color in the RGBA color space.
///
/// Each channel is an 8-bit unsigned integer, so the 0–255 range invariant is
/// structural: no `Rgba` value can hold an out-of-range channel.
#[derive(Debug, PartialEq, Eq, Structural)]
pub struct Rgba {
    /// Red channel (0–255)
    pub red: u8,
    /// Green channel (0–255)
    pub green: u8,
    /// Blue channel (0–255)
    pub blue: u8,
    /// Alpha channel (0–255), where 255 is fully opaque
    pub alpha: u8,
}

/// An exact non-negative fraction `num / den`.
///
/// The derived color spaces (HSL, HSV, CMYK) have channels that are exact
/// rational functions of the RGBA channels; this type carries them without
/// rounding. A well-formed `Ratio` has a positive denominator.
#[derive(Debug, PartialEq, Eq, Structural, Clone, Copy)]
pub struct Ratio {
    /// Numerator
    pub num: u32,
    /// Denominator (positive for every well-formed value)
    pub den: u32,
}

impl Ratio {
    /// A positive denominator, so the fraction denotes a number.
    pub open spec fn wf(self) -> bool {
        self.den > 0
    }
}

/// Errors that can occur during color parsing or conversion.
#[derive(Debug)]
pub enum ColorParserError {
    /// Invalid hex string length (must be 3, 4, 6, or 8 characters)
    InvalidLength,
    /// Invalid character in hex string
    InvalidCharacter,
    /// RGB values must be in the 0–255 range. Kept for API completeness:
    /// `Rgba` stores channels as `u8`, so nothing in this crate can produce it.
    InvalidRgbValue,
}

impl ColorParserError {
    /// A human-readable description of the error.
    pub fn message(&self) -> (r: String)
        ensures
            self is InvalidLength ==> r@ == "Hex color must be 6 character long"@,
            self is InvalidCharacter ==> r@ == "Invalid character in hex color"@,
            self is InvalidRgbValue ==> r@ == "RGB value must be between 0 and 255"@,
    {
        match self {
            ColorParserError::InvalidLength => "Hex color must be 6 character long".to_owned(),
            ColorParserError::InvalidCharacter => "Invalid character in hex color".to_owned(),
            ColorParserError::InvalidRgbValue => "RGB value must be between 0 and 255".to_owned(),
        }
    }
}

} // verus!
