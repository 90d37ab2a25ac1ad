//! Conversions from RGBA to the HSL, HSV and CMYK color spaces.
//!
//! Every derived channel is an exact rational function of the red, green and
//! blue channels (alpha is never consulted), so the results are carried as
//! exact fractions ([`Ratio`]). Hue is in degrees, stated as a fraction in
//! [0, 360); saturation, lightness, value and the CMYK channels are
//! percentages, stated as fractions in [0, 100].
//!
//! The spec functions below give each channel's numerator and denominator
//! directly from the conversion formulas:
//! - lightness `L = (max + min) / 2` of the normalized channels, so the
//!   percentage is `50 * (max + min) / 255`;
//! - HSL saturation `delta / (1 - |2L - 1|)`, which over the 0–255 channel
//!   values is `delta / (255 - |max + min - 255|)`;
//! - HSV value `max / 255` and saturation `delta / max`;
//! - CMYK key `(255 - max) / 255`, and e.g. cyan `(max - red) / max`;
//! - hue: 60 degrees times `(g - b) / delta` (red dominant, plus 6 if
//!   `g < b`), `(b - r) / delta + 2` (green dominant) or `(r - g) / delta + 4`
//!   (blue dominant), the dominant channel being the first of red, green,
//!   blue that equals the maximum.
//!
//! An achromatic color (`delta == 0`) short-circuits hue and saturation to 0,
//! and pure black short-circuits the CMYK channels to cyan = magenta =
//! yellow = 0, key = 100, avoiding the division by zero.

use vstd::prelude::*;

use crate::color::ColorParserError;
use crate::color::Ratio;
use crate::color::Rgba;

verus! {

/// Represents a color in the HSL color space.
#[derive(Debug, PartialEq, Eq, Structural, Clone, Copy)]
pub struct Hsl {
    /// Hue in degrees [0–360)
    pub hue: Ratio,
    /// Saturation as percentage [0–100]
    pub saturation: Ratio,
    /// Lightness as percentage [0–100]
    pub lightness: Ratio,
}

/// Represents a color in the HSV color space.
#[derive(Debug, PartialEq, Eq, Structural, Clone, Copy)]
pub struct Hsv {
    /// Hue in degrees [0–360)
    pub hue: Ratio,
    /// Saturation as percentage [0–100]
    pub saturation: Ratio,
    /// Value (brightness) as percentage [0–100]
    pub value: Ratio,
}

/// Represents a color in the CMYK color space.
#[derive(Debug, PartialEq, Eq, Structural, Clone, Copy)]
pub struct Cmyk {
    /// Cyan channel as percentage [0–100]
    pub cyan: Ratio,
    /// Magenta channel as percentage [0–100]
    pub magenta: Ratio,
    /// Yellow channel as percentage [0–100]
    pub yellow: Ratio,
    /// Black (Key) channel as percentage [0–100]
    pub black: Ratio,
}

/// The largest of the three channel values.
pub open spec fn max3(r: int, g: int, b: int) -> int {
    if r >= g && r >= b {
        r
    } else if g >= b {
        g
    } else {
        b
    }
}

/// The smallest of the three channel values.
pub open spec fn min3(r: int, g: int, b: int) -> int {
    if r <= g && r <= b {
        r
    } else if g <= b {
        g
    } else {
        b
    }
}

/// `max3 - min3`: zero exactly for the achromatic colors.
pub open spec fn delta3(r: int, g: int, b: int) -> int {
    max3(r, g, b) - min3(r, g, b)
}

/// Numerator of the hue in degrees; the denominator is [`hue_den`].
/// Shared by HSL and HSV.
pub open spec fn hue_num(r: int, g: int, b: int) -> int {
    let mx = max3(r, g, b);
    let d = delta3(r, g, b);
    if d == 0 {
        0
    } else if mx == r {
        if g >= b {
            60 * (g - b)
        } else {
            360 * d - 60 * (b - g)
        }
    } else if mx == g {
        120 * d + 60 * (b - r)
    } else {
        240 * d + 60 * (r - g)
    }
}

/// Denominator of the hue: the delta, or 1 for an achromatic color.
pub open spec fn hue_den(r: int, g: int, b: int) -> int {
    if delta3(r, g, b) == 0 {
        1
    } else {
        delta3(r, g, b)
    }
}

/// Numerator of the HSL saturation percentage; the denominator is
/// [`hsl_sat_den`].
pub open spec fn hsl_sat_num(r: int, g: int, b: int) -> int {
    if delta3(r, g, b) == 0 {
        0
    } else {
        100 * delta3(r, g, b)
    }
}

/// Denominator of the HSL saturation percentage: `255 - |max + min - 255|`,
/// or 1 for an achromatic color.
pub open spec fn hsl_sat_den(r: int, g: int, b: int) -> int {
    let s = max3(r, g, b) + min3(r, g, b);
    if delta3(r, g, b) == 0 {
        1
    } else if s >= 255 {
        510 - s
    } else {
        s
    }
}

/// Numerator of the lightness percentage `50 * (max + min) / 255`.
pub open spec fn lightness_num(r: int, g: int, b: int) -> int {
    50 * (max3(r, g, b) + min3(r, g, b))
}

/// Numerator of the HSV saturation percentage; the denominator is
/// [`hsv_sat_den`].
pub open spec fn hsv_sat_num(r: int, g: int, b: int) -> int {
    if delta3(r, g, b) == 0 {
        0
    } else {
        100 * delta3(r, g, b)
    }
}

/// Denominator of the HSV saturation percentage: the maximum channel, or 1
/// for an achromatic color.
pub open spec fn hsv_sat_den(r: int, g: int, b: int) -> int {
    if delta3(r, g, b) == 0 {
        1
    } else {
        max3(r, g, b)
    }
}

/// The derived channels stay in their stated ranges: hue is in [0, 360)
/// degrees, and the saturation, lightness and value percentages are in
/// [0, 100] (a fraction `n / d` lies in [0, x] when `0 <= n <= x * d`).
pub proof fn lemma_channel_ranges(r: int, g: int, b: int)
    requires
        0 <= r <= 255,
        0 <= g <= 255,
        0 <= b <= 255,
    ensures
        hue_den(r, g, b) > 0,
        0 <= hue_num(r, g, b) < 360 * hue_den(r, g, b),
        hsl_sat_den(r, g, b) > 0,
        0 <= hsl_sat_num(r, g, b) <= 100 * hsl_sat_den(r, g, b),
        0 <= lightness_num(r, g, b) <= 100 * 255,
        hsv_sat_den(r, g, b) > 0,
        0 <= hsv_sat_num(r, g, b) <= 100 * hsv_sat_den(r, g, b),
{
    let mx = max3(r, g, b);
    let mn = min3(r, g, b);
    let d = delta3(r, g, b);
    assert(0 <= mn <= mx <= 255);
    if d != 0 {
        // HSL saturation: delta never exceeds 255 - |max + min - 255|.
        assert(d <= mx + mn);
        assert(d <= 510 - (mx + mn));
        // Hue: each dominant-channel branch stays under 360 * delta.
        if mx == r {
            if g >= b {
                assert(g - b <= d);
            } else {
                assert(b - g >= 1);
            }
        } else if mx == g {
            assert(-d <= b - r <= d);
        } else {
            assert(-d <= r - g <= d);
        }
    }
}

/// An achromatic color (equal red, green and blue channels) has zero delta,
/// so hue and saturation are zero in both HSL and HSV, whichever branch the
/// conversion takes.
pub proof fn lemma_achromatic(v: int)
    requires
        0 <= v <= 255,
    ensures
        delta3(v, v, v) == 0,
        hue_num(v, v, v) == 0,
        hsl_sat_num(v, v, v) == 0,
        hsv_sat_num(v, v, v) == 0,
        lightness_num(v, v, v) == 100 * v,
{
}

/// The largest of the three channels, computed as `u32`.
fn max3_exec(r: u32, g: u32, b: u32) -> (m: u32)
    ensures
        m == max3(r as int, g as int, b as int),
{
    if r >= g && r >= b {
        r
    } else if g >= b {
        g
    } else {
        b
    }
}

/// The smallest of the three channels, computed as `u32`.
fn min3_exec(r: u32, g: u32, b: u32) -> (m: u32)
    ensures
        m == min3(r as int, g as int, b as int),
{
    if r <= g && r <= b {
        r
    } else if g <= b {
        g
    } else {
        b
    }
}

/// The hue fraction in degrees, shared by the HSL and HSV conversions.
fn hue_frac(r: u32, g: u32, b: u32) -> (h: Ratio)
    requires
        r <= 255,
        g <= 255,
        b <= 255,
    ensures
        h.num == hue_num(r as int, g as int, b as int),
        h.den == hue_den(r as int, g as int, b as int),
{
    let mx = max3_exec(r, g, b);
    let mn = min3_exec(r, g, b);
    let d = mx - mn;
    if d == 0 {
        Ratio { num: 0, den: 1 }
    } else if mx == r {
        if g >= b {
            Ratio { num: 60 * (g - b), den: d }
        } else {
            Ratio { num: 360 * d - 60 * (b - g), den: d }
        }
    } else if mx == g {
        Ratio { num: 120 * d + 60 * b - 60 * r, den: d }
    } else {
        Ratio { num: 240 * d + 60 * r - 60 * g, den: d }
    }
}

/// Converts an [`Rgba`] color to the HSL color space.
///
/// Always succeeds: the 0–255 channel range is structural in [`Rgba`], so the
/// defensive [`ColorParserError::InvalidRgbValue`] failure cannot occur. The
/// alpha channel is not consulted.
pub fn parse_rgb_to_hsl(color: &Rgba) -> (res: Result<Hsl, ColorParserError>)
    ensures
        res is Ok,
        ({
            let hsl = res->Ok_0;
            let r = color.red as int;
            let g = color.green as int;
            let b = color.blue as int;
            &&& hsl.hue.wf() && hsl.saturation.wf() && hsl.lightness.wf()
            &&& hsl.hue.num == hue_num(r, g, b)
            &&& hsl.hue.den == hue_den(r, g, b)
            &&& hsl.saturation.num == hsl_sat_num(r, g, b)
            &&& hsl.saturation.den == hsl_sat_den(r, g, b)
            &&& hsl.lightness.num == lightness_num(r, g, b)
            &&& hsl.lightness.den == 255
        }),
{
    let r = color.red as u32;
    let g = color.green as u32;
    let b = color.blue as u32;
    let mx = max3_exec(r, g, b);
    let mn = min3_exec(r, g, b);
    let d = mx - mn;
    let sum = mx + mn;

    let lightness = Ratio { num: 50 * sum, den: 255 };
    let saturation = if d == 0 {
        Ratio { num: 0, den: 1 }
    } else {
        Ratio { num: 100 * d, den: if sum >= 255 { 510 - sum } else { sum } }
    };
    let hue = hue_frac(r, g, b);

    Ok(Hsl { hue, saturation, lightness })
}

/// Converts an [`Rgba`] color to the HSV color space.
///
/// Always succeeds: the 0–255 channel range is structural in [`Rgba`], so the
/// defensive [`ColorParserError::InvalidRgbValue`] failure cannot occur. The
/// alpha channel is not consulted.
pub fn parse_rgb_to_hsv(color: &Rgba) -> (res: Result<Hsv, ColorParserError>)
    ensures
        res is Ok,
        ({
            let hsv = res->Ok_0;
            let r = color.red as int;
            let g = color.green as int;
            let b = color.blue as int;
            &&& hsv.hue.wf() && hsv.saturation.wf() && hsv.value.wf()
            &&& hsv.hue.num == hue_num(r, g, b)
            &&& hsv.hue.den == hue_den(r, g, b)
            &&& hsv.saturation.num == hsv_sat_num(r, g, b)
            &&& hsv.saturation.den == hsv_sat_den(r, g, b)
            &&& hsv.value.num == 100 * max3(r, g, b)
            &&& hsv.value.den == 255
        }),
{
    let r = color.red as u32;
    let g = color.green as u32;
    let b = color.blue as u32;
    let mx = max3_exec(r, g, b);
    let mn = min3_exec(r, g, b);
    let d = mx - mn;

    let value = Ratio { num: 100 * mx, den: 255 };
    let saturation = if d == 0 {
        Ratio { num: 0, den: 1 }
    } else {
        Ratio { num: 100 * d, den: mx }
    };
    let hue = hue_frac(r, g, b);

    Ok(Hsv { hue, saturation, value })
}

/// Converts an [`Rgba`] color to the CMYK color space.
///
/// Always succeeds: the 0–255 channel range is structural in [`Rgba`], so the
/// defensive [`ColorParserError::InvalidRgbValue`] failure cannot occur. The
/// alpha channel is not consulted. Pure black returns cyan = magenta =
/// yellow = 0 and black = 100 directly, avoiding a division by zero.
pub fn parse_rgb_to_cmyk(color: &Rgba) -> (res: Result<Cmyk, ColorParserError>)
    ensures
        res is Ok,
        ({
            let cmyk = res->Ok_0;
            let r = color.red as int;
            let g = color.green as int;
            let b = color.blue as int;
            let mx = max3(r, g, b);
            &&& cmyk.cyan.wf() && cmyk.magenta.wf() && cmyk.yellow.wf() && cmyk.black.wf()
            &&& if mx == 0 {
                &&& cmyk.cyan == (Ratio { num: 0, den: 1 })
                &&& cmyk.magenta == (Ratio { num: 0, den: 1 })
                &&& cmyk.yellow == (Ratio { num: 0, den: 1 })
                &&& cmyk.black == (Ratio { num: 100, den: 1 })
            } else {
                &&& cmyk.cyan.num == 100 * (mx - r) && cmyk.cyan.den == mx
                &&& cmyk.magenta.num == 100 * (mx - g) && cmyk.magenta.den == mx
                &&& cmyk.yellow.num == 100 * (mx - b) && cmyk.yellow.den == mx
                &&& cmyk.black.num == 100 * (255 - mx) && cmyk.black.den == 255
            }
        }),
{
    let r = color.red as u32;
    let g = color.green as u32;
    let b = color.blue as u32;
    let mx = max3_exec(r, g, b);

    if mx == 0 {
        return Ok(
            Cmyk {
                cyan: Ratio { num: 0, den: 1 },
                magenta: Ratio { num: 0, den: 1 },
                yellow: Ratio { num: 0, den: 1 },
                black: Ratio { num: 100, den: 1 },
            },
        );
    }

    Ok(
        Cmyk {
            cyan: Ratio { num: 100 * (mx - r), den: mx },
            magenta: Ratio { num: 100 * (mx - g), den: mx },
            yellow: Ratio { num: 100 * (mx - b), den: mx },
            black: Ratio { num: 100 * (255 - mx), den: 255 },
        },
    )
}

} // verus!
