//! Color parsing and conversion.
//!
//! Parses hexadecimal color strings (`#RRGGBB`, `#RRGGBBAA`, `#RGB`, `#RGBA`)
//! into [`Rgba`] values and converts them to the HSL, HSV and CMYK color
//! spaces. All channel arithmetic is exact: derived channels are represented
//! as integer fractions ([`Ratio`]) rather than floating-point numbers.

pub mod color;
pub mod convert;
pub mod hex;

pub use color::ColorParserError;
pub use color::Ratio;
pub use color::Rgba;
pub use convert::Cmyk;
pub use convert::Hsl;
pub use convert::Hsv;
pub use convert::parse_rgb_to_cmyk;
pub use convert::parse_rgb_to_hsl;
pub use convert::parse_rgb_to_hsv;
pub use hex::parse_hex_to_rgba;
