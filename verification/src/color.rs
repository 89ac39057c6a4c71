use crate::raster::ELEVATION_DEN;
use vstd::prelude::*;

verus! {

/// The fixed denominator of the three color channels: `80_000 *
/// ELEVATION_DEN`, the common denominator of the water regime (ramp over
/// 1000 m) and the land regime (ramp over 8000 m) once hue, saturation and
/// lightness are scaled to one integer grid.
pub const COLOR_DEN: i128 = 88_128_000_000_000_000_000_000;

/// The denominator of the water regime's normalized depth `t`:
/// `1000 * ELEVATION_DEN`.
pub const WATER_RAMP: i128 = 1_101_600_000_000_000_000_000;

/// The denominator of the land regime's normalized height `t`:
/// `8000 * ELEVATION_DEN`.
pub const LAND_RAMP: i128 = 8_812_800_000_000_000_000_000;

/// A perceptual color: hue in [0, 360) degrees, saturation and lightness in
/// [0, 1], each held exactly as a numerator over `COLOR_DEN`.
#[derive(Clone, Copy, Debug, PartialEq, Eq, Structural)]
pub struct DisplayColor {
    /// Hue in degrees, times `COLOR_DEN`.
    pub hue_num: i128,
    /// Saturation, times `COLOR_DEN`.
    pub sat_num: i128,
    /// Lightness, times `COLOR_DEN`.
    pub light_num: i128,
}

/// `x` clamped into `[lo, hi]`.
pub open spec fn clamp(x: int, lo: int, hi: int) -> int {
    if x < lo {
        lo
    } else if x > hi {
        hi
    } else {
        x
    }
}

/// The water regime, for elevations at or below sea level: with the depth
/// ratio `t = clamp(e / -1000, 0, 1)` inverted to `t' = 1 - t`, the color is
/// hue `220 - t' * 20` (deep navy 220 up to cyan 200), saturation
/// `0.6 - t' * 0.1` and lightness `0.3 + t' * 0.4`. `e` is a numerator over
/// `ELEVATION_DEN`, `t'` one over `WATER_RAMP`, the result one over
/// `COLOR_DEN == 80 * WATER_RAMP`.
pub open spec fn water_color(e: int) -> DisplayColor {
    let t = clamp(-e, 0, WATER_RAMP as int);
    let tp = WATER_RAMP - t;
    DisplayColor {
        hue_num: (17_600 * (WATER_RAMP as int) - 1_600 * tp) as i128,
        sat_num: (48 * (WATER_RAMP as int) - 8 * tp) as i128,
        light_num: (24 * (WATER_RAMP as int) + 32 * tp) as i128,
    }
}

/// The land regime, for elevations above sea level: with the height ratio
/// `t = clamp(e / 8000, 0, 1)`, the color is hue `30 * (1 - t)` (dark brown
/// 30 down to 0), saturation `0.5 * (1 - t)` and lightness `0.3 + t * 0.7`
/// (up to white). `e` is a numerator over `ELEVATION_DEN`, `t` one over
/// `LAND_RAMP`, the result one over `COLOR_DEN == 10 * LAND_RAMP`.
pub open spec fn land_color(e: int) -> DisplayColor {
    let t = clamp(e, 0, LAND_RAMP as int);
    DisplayColor {
        hue_num: (300 * ((LAND_RAMP as int) - t)) as i128,
        sat_num: (5 * ((LAND_RAMP as int) - t)) as i128,
        light_num: (3 * (LAND_RAMP as int) + 7 * t) as i128,
    }
}

/// The color of an elevation: the water regime at or below sea level, the
/// land regime above it. Elevations beyond [-1000, 8000] meters saturate to
/// the extreme color of their regime.
pub open spec fn color_of_elevation(e: int) -> DisplayColor {
    if e <= 0 {
        water_color(e)
    } else {
        land_color(e)
    }
}

/// Maps an elevation, as a numerator over `ELEVATION_DEN`, to its display
/// color. Pure and total: every elevation gets the exact color of its
/// regime, with hue within [0, 220] degrees and saturation and lightness
/// within [0, 1].
pub fn elevation_to_color(elevation_num: i128) -> (c: DisplayColor)
    ensures
        c == color_of_elevation(elevation_num as int),
        0 <= c.hue_num <= 220 * COLOR_DEN,
        0 <= c.sat_num <= COLOR_DEN,
        0 <= c.light_num <= COLOR_DEN,
{
    if elevation_num <= 0 {
        let t: i128 = if elevation_num <= -WATER_RAMP {
            WATER_RAMP
        } else {
            -elevation_num
        };
        let tp: i128 = WATER_RAMP - t;
        DisplayColor {
            hue_num: 17_600 * WATER_RAMP - 1_600 * tp,
            sat_num: 48 * WATER_RAMP - 8 * tp,
            light_num: 24 * WATER_RAMP + 32 * tp,
        }
    } else {
        let t: i128 = if elevation_num >= LAND_RAMP {
            LAND_RAMP
        } else {
            elevation_num
        };
        DisplayColor {
            hue_num: 300 * (LAND_RAMP - t),
            sat_num: 5 * (LAND_RAMP - t),
            light_num: 3 * LAND_RAMP + 7 * t,
        }
    }
}

/// At sea level the two regimes deliberately disagree: the water regime
/// gives hue 200, saturation 0.5, lightness 0.7, while the land regime's
/// formulas at the same boundary give hue 30, saturation 0.5, lightness 0.3.
/// `color_of_elevation(0)` takes the water side. Only the saturation channel
/// is continuous across sea level.
pub proof fn lemma_color_regime_boundary()
    ensures
        color_of_elevation(0) == water_color(0),
        water_color(0) == (DisplayColor {
            hue_num: (200 * COLOR_DEN) as i128,
            sat_num: (COLOR_DEN / 2) as i128,
            light_num: (7 * COLOR_DEN / 10) as i128,
        }),
        land_color(0) == (DisplayColor {
            hue_num: (30 * COLOR_DEN) as i128,
            sat_num: (COLOR_DEN / 2) as i128,
            light_num: (3 * COLOR_DEN / 10) as i128,
        }),
{
}

/// Depths below 1000 m all wear the deepest-water color: the water ramp is
/// clamped, so the color of any elevation at or below -1000 m equals the
/// color at exactly -1000 m.
pub proof fn lemma_color_saturates_deep(e: int)
    requires
        e <= -1000 * (ELEVATION_DEN as int),
    ensures
        color_of_elevation(e) == color_of_elevation(-1000 * (ELEVATION_DEN as int)),
{
}

/// Heights above 8000 m all wear the highest-land color: the land ramp is
/// clamped, so the color of any elevation at or above 8000 m equals the
/// color at exactly 8000 m.
pub proof fn lemma_color_saturates_high(e: int)
    requires
        e >= 8000 * (ELEVATION_DEN as int),
    ensures
        color_of_elevation(e) == color_of_elevation(8000 * (ELEVATION_DEN as int)),
{
}

} // verus!

