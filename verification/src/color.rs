//! The color model: opaque 8-bit RGB triples for flat fills, and a
//! fixed-point hue/saturation/lightness value that supports the two
//! operations the compositor needs — additive hue rotation wrapping at
//! 360 degrees, and multiplicative desaturation.
//!
//! Conversion of an `Hsl` value to RGB for storage is a collaborator's
//! job outside this crate; here a color is exact integer data.

use vstd::prelude::*;
use crate::fixed::FP_SCALE;

verus! {

/// A full turn of the hue circle, in fixed-point degrees.
pub const HUE_TURN: i64 = 3_600_000;

/// Largest hue rotation (in fixed-point degrees) `shift_hue` accepts;
/// comfortably above any distance-derived shift.
pub const MAX_HUE_SHIFT: i64 = 4_000_000_000;

/// An 8-bit-per-channel RGB triple, ready for buffer storage.
#[derive(Debug, Clone, Copy, PartialEq, Eq, Structural)]
pub struct Rgb {
    pub r: u8,
    pub g: u8,
    pub b: u8,
}

impl Rgb {
    /// An RGB triple from its three channels.
    pub fn new(r: u8, g: u8, b: u8) -> (c: Rgb)
        ensures
            c == (Rgb { r, g, b }),
    {
        Rgb { r, g, b }
    }
}

/// A hue/saturation/lightness color in fixed point: hue in degrees scaled
/// by `FP_SCALE`, saturation and lightness in `[0, FP_SCALE]`.
#[derive(Debug, Clone, Copy, PartialEq, Eq, Structural)]
pub struct Hsl {
    pub hue: i64,
    pub sat: i64,
    pub light: i64,
}

impl Hsl {
    /// Hue lies on the circle, saturation and lightness in `[0, 1]`.
    pub open spec fn wf(self) -> bool {
        &&& 0 <= self.hue < HUE_TURN
        &&& 0 <= self.sat <= FP_SCALE
        &&& 0 <= self.light <= FP_SCALE
    }

    /// An HSL color from its three fixed-point channels.
    pub fn new(hue: i64, sat: i64, light: i64) -> (c: Hsl)
        requires
            0 <= hue < HUE_TURN,
            0 <= sat <= FP_SCALE,
            0 <= light <= FP_SCALE,
        ensures
            c == (Hsl { hue, sat, light }),
            c.wf(),
    {
        Hsl { hue, sat, light }
    }
}

/// `c` with its hue rotated by `shift` fixed-point degrees, wrapping
/// modulo a full turn; saturation and lightness are untouched.
pub open spec fn spec_shift_hue(c: Hsl, shift: int) -> Hsl {
    Hsl {
        hue: ((c.hue + shift) % (HUE_TURN as int)) as i64,
        sat: c.sat,
        light: c.light,
    }
}

/// Rotates the hue of `c` by `shift` fixed-point degrees, wrapping
/// modulo 360 degrees.
pub fn shift_hue(c: &Hsl, shift: i64) -> (r: Hsl)
    requires
        c.wf(),
        0 <= shift <= MAX_HUE_SHIFT,
    ensures
        r == spec_shift_hue(*c, shift as int),
        r.wf(),
        r.sat == c.sat,
        r.light == c.light,
{
    let hue: i64 = ((((c.hue as u64) + (shift as u64)) % (HUE_TURN as u64))) as i64;
    Hsl { hue, sat: c.sat, light: c.light }
}

/// `c` with its saturation multiplicatively dampened: scaled by
/// `(FP_SCALE - factor) / FP_SCALE`, rounded down; hue and lightness are
/// untouched.
pub open spec fn spec_desaturate(c: Hsl, factor: int) -> Hsl {
    Hsl {
        hue: c.hue,
        sat: ((c.sat * ((FP_SCALE as int) - factor)) / (FP_SCALE as int)) as i64,
        light: c.light,
    }
}

/// Removes `factor` (in `[0, FP_SCALE]`, a fraction of one) of the
/// saturation of `c`, leaving `sat * (FP_SCALE - factor) / FP_SCALE`.
pub fn desaturate(c: &Hsl, factor: i64) -> (r: Hsl)
    requires
        c.wf(),
        0 <= factor <= FP_SCALE,
    ensures
        r == spec_desaturate(*c, factor as int),
        r.wf(),
        r.hue == c.hue,
        r.light == c.light,
        r.sat <= c.sat,
{
    proof {
        assert(c.sat * (FP_SCALE - factor) <= 100_000_000
            && 0 <= c.sat * (FP_SCALE - factor)
            && c.sat * (FP_SCALE - factor) <= c.sat * (FP_SCALE as int)) by (nonlinear_arith)
            requires
                0 <= c.sat <= 10_000,
                0 <= FP_SCALE - factor <= 10_000,
                FP_SCALE == 10_000i64;
    }
    let scaled: u64 = ((c.sat as u64) * ((FP_SCALE - factor) as u64)) / (FP_SCALE as u64);
    proof {
        assert(scaled as int == c.sat * ((FP_SCALE as int) - factor) / (FP_SCALE as int));
        assert(c.sat * ((FP_SCALE as int) - factor) / (FP_SCALE as int) <= c.sat
            && 0 <= c.sat * ((FP_SCALE as int) - factor) / (FP_SCALE as int)) by (nonlinear_arith)
            requires
                0 <= c.sat <= 10_000,
                0 <= c.sat * ((FP_SCALE as int) - factor) <= c.sat * 10_000,
                FP_SCALE == 10_000i64;
    }
    Hsl { hue: c.hue, sat: scaled as i64, light: c.light }
}

} // verus!
