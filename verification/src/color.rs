//! HSV and RGB color types, and the fast integer HSV-to-RGB conversion used
//! at the boundary to the transmission driver.

use vstd::prelude::*;

verus! {

/// HSV color:
/// - `h`: hue, wrapping around the color wheel;
/// - `s`: saturation, 0 = gray, 255 = fully saturated;
/// - `v`: value, 0 = off, 255 = full brightness.
#[derive(Clone, Copy, Debug, PartialEq, Eq, Structural)]
pub struct Hsv {
    pub h: u8,
    pub s: u8,
    pub v: u8,
}

/// RGB color with 8-bit channels.
#[derive(Clone, Copy, Debug, PartialEq, Eq, Structural)]
pub struct Rgb {
    pub r: u8,
    pub g: u8,
    pub b: u8,
}

/// `(value * scale + 1) / 256`: a fast scaling of `value` by a `0..=255`
/// factor, with the `+ 1` giving slightly better rounding than truncation.
pub open spec fn spec_scale8(value: u8, scale: u8) -> u8 {
    ((value as int * scale as int + 1) / 256) as u8
}

/// The RGB color that the fast conversion assigns to an HSV triple under a
/// global brightness factor. The hue circle is split into six regions of 43
/// hue steps each; within a region the three channels are the scaled value,
/// and two ramps meeting at the region boundaries.
pub open spec fn spec_to_rgb(c: Hsv, brightness: u8) -> Rgb {
    let v = spec_scale8(c.v, brightness);
    if c.s == 0 {
        Rgb { r: v, g: v, b: v }
    } else {
        let region = c.h / 43;
        let remainder = ((c.h - region * 43) * 6) as u8;
        let p = spec_scale8(v, (255 - c.s) as u8);
        let q = spec_scale8(v, (255 - spec_scale8(c.s, remainder)) as u8);
        let t = spec_scale8(v, (255 - spec_scale8(c.s, (255 - remainder) as u8)) as u8);
        if region == 0 {
            Rgb { r: v, g: t, b: p }
        } else if region == 1 {
            Rgb { r: q, g: v, b: p }
        } else if region == 2 {
            Rgb { r: p, g: v, b: t }
        } else if region == 3 {
            Rgb { r: p, g: q, b: v }
        } else if region == 4 {
            Rgb { r: t, g: p, b: v }
        } else {
            Rgb { r: v, g: p, b: q }
        }
    }
}

/// Scale a value by a factor out of 255, as `(value * scale + 1) / 256`.
pub fn scale8(value: u8, scale: u8) -> (r: u8)
    ensures
        r == spec_scale8(value, scale),
{
    assert(value as u32 * (scale as u32) <= 255u32 * 255u32) by (nonlinear_arith)
        requires
            value <= 255 && scale <= 255,
    ;
    let product: u32 = value as u32 * scale as u32;
    ((product + 1) / 256) as u8
}

impl Hsv {
    /// Create a new HSV color.
    pub fn new(h: u8, s: u8, v: u8) -> (c: Hsv)
        ensures
            c == (Hsv { h, s, v }),
    {
        Hsv { h, s, v }
    }

    /// Convert to RGB at full brightness.
    pub fn to_rgb(self) -> (r: Rgb)
        ensures
            r == spec_to_rgb(self, 255),
    {
        self.to_rgb_with_brightness(255)
    }

    /// Convert to RGB, scaling the value channel by a global brightness
    /// factor first. Uses the fast integer approximation common on
    /// microcontrollers rather than an exact conversion.
    pub fn to_rgb_with_brightness(self, brightness: u8) -> (r: Rgb)
        ensures
            r == spec_to_rgb(self, brightness),
    {
        let h = self.h;
        let s = self.s;
        let v = scale8(self.v, brightness);

        if s == 0 {
            return Rgb { r: v, g: v, b: v };
        }

        let region = h / 43;
        let remainder = (h - region * 43) * 6;

        let p = scale8(v, 255 - s);
        let q = scale8(v, 255 - scale8(s, remainder));
        let t = scale8(v, 255 - scale8(s, 255 - remainder));

        if region == 0 {
            Rgb { r: v, g: t, b: p }
        } else if region == 1 {
            Rgb { r: q, g: v, b: p }
        } else if region == 2 {
            Rgb { r: p, g: v, b: t }
        } else if region == 3 {
            Rgb { r: p, g: q, b: v }
        } else if region == 4 {
            Rgb { r: t, g: p, b: v }
        } else {
            Rgb { r: v, g: p, b: q }
        }
    }
}

impl Rgb {
    /// Create a new RGB color.
    pub fn new(r: u8, g: u8, b: u8) -> (c: Rgb)
        ensures
            c == (Rgb { r, g, b }),
    {
        Rgb { r, g, b }
    }
}

} // verus!
