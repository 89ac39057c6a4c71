use crate::errors::EngineError;
use crate::geo::GeoCoordinate;
use crate::geo::LAT_LIMIT_MICRODEG;
use crate::geo::LNG_LIMIT_MICRODEG;
use vstd::arithmetic::div_mod::lemma_div_is_ordered;
use vstd::arithmetic::div_mod::lemma_mod_multiples_basic;
use vstd::arithmetic::div_mod::lemma_div_by_multiple;
use vstd::arithmetic::mul::lemma_mul_inequality;
use vstd::prelude::*;

verus! {

/// The longitude span of the globe in microdegrees; the denominator of the
/// horizontal sub-pixel offset `dx`.
pub const LNG_SPAN_MICRODEG: u64 = 360_000_000;

/// The latitude span of the globe in microdegrees; the denominator of the
/// vertical sub-pixel offset `dy`.
pub const LAT_SPAN_MICRODEG: u64 = 180_000_000;

/// The fixed denominator of a bilinear sample: `LNG_SPAN_MICRODEG *
/// LAT_SPAN_MICRODEG`. A sample numerator `n` denotes the intensity
/// `n / SAMPLE_DEN`, a value in [0, 255].
pub const SAMPLE_DEN: u64 = 64_800_000_000_000_000;

/// The fixed denominator of an elevation: `17 * SAMPLE_DEN`. An elevation
/// numerator `n` denotes `n / ELEVATION_DEN` meters. The factor 17 makes the
/// remap `-1000 + (sample / 255) * 9000` exact, since `9000 / 255 == 600 / 17`.
pub const ELEVATION_DEN: i128 = 1_101_600_000_000_000_000;

/// The intensity of the raster pixel in column `x` of row `y`.
pub open spec fn pixel_at(data: Seq<u8>, width: int, x: int, y: int) -> int {
    data[y * width + x] as int
}

/// The numerator of the fractional pixel column of a longitude:
/// `fx == fx_num / LNG_SPAN_MICRODEG == ((lng + 180) / 360) * (width - 1)`.
pub open spec fn fx_num(width: int, lng_microdeg: int) -> int {
    (lng_microdeg + LNG_LIMIT_MICRODEG) * (width - 1)
}

/// The numerator of the fractional pixel row of a latitude:
/// `fy == fy_num / LAT_SPAN_MICRODEG == ((90 - lat) / 180) * (height - 1)`.
pub open spec fn fy_num(height: int, lat_microdeg: int) -> int {
    (LAT_LIMIT_MICRODEG - lat_microdeg) * (height - 1)
}

/// The numerator, over `SAMPLE_DEN`, of the bilinear blend of the four raster
/// samples surrounding the geographic coordinate: with `x0 = floor(fx)`,
/// `y0 = floor(fy)`, `x1`/`y1` their clamped successors and `dx`/`dy` the
/// sub-pixel offsets, this is
/// `(top * (1 - dy) + bottom * dy) * SAMPLE_DEN` where
/// `top = g[x0,y0] * (1 - dx) + g[x1,y0] * dx` and
/// `bottom = g[x0,y1] * (1 - dx) + g[x1,y1] * dx`.
pub open spec fn sample_num(
    data: Seq<u8>,
    width: int,
    height: int,
    lat_microdeg: int,
    lng_microdeg: int,
) -> int {
    let fxn = fx_num(width, lng_microdeg);
    let fyn = fy_num(height, lat_microdeg);
    let x0 = fxn / (LNG_SPAN_MICRODEG as int);
    let y0 = fyn / (LAT_SPAN_MICRODEG as int);
    let dx = fxn % (LNG_SPAN_MICRODEG as int);
    let dy = fyn % (LAT_SPAN_MICRODEG as int);
    let x1 = if x0 + 1 <= width - 1 { x0 + 1 } else { width - 1 };
    let y1 = if y0 + 1 <= height - 1 { y0 + 1 } else { height - 1 };
    let top = pixel_at(data, width, x0, y0) * (LNG_SPAN_MICRODEG - dx)
        + pixel_at(data, width, x1, y0) * dx;
    let bottom = pixel_at(data, width, x0, y1) * (LNG_SPAN_MICRODEG - dx)
        + pixel_at(data, width, x1, y1) * dx;
    top * (LAT_SPAN_MICRODEG - dy) + bottom * dy
}

/// The numerator, over `ELEVATION_DEN`, of the affine intensity-to-meters
/// remap `-1000 + (sample / 255) * 9000`.
pub open spec fn elevation_num(
    data: Seq<u8>,
    width: int,
    height: int,
    lat_microdeg: int,
    lng_microdeg: int,
) -> int {
    600 * sample_num(data, width, height, lat_microdeg, lng_microdeg) - 1000 * (
    ELEVATION_DEN as int)
}

/// An immutable 2D grid of 8-bit intensity samples covering the full globe
/// under an equirectangular projection: column 0 is longitude -180 degrees,
/// column `width - 1` is +180 degrees; row 0 is latitude +90 degrees, row
/// `height - 1` is -90 degrees. Width and height are always at least 2.
#[derive(Debug)]
pub struct RasterGrid {
    width: u32,
    height: u32,
    data: Vec<u8>,
}

impl RasterGrid {
    #[verifier::type_invariant]
    spec fn inv(self) -> bool {
        &&& 2 <= self.width
        &&& 2 <= self.height
        &&& self.data@.len() == (self.width as int) * (self.height as int)
    }

    /// The number of pixel columns.
    pub closed spec fn spec_width(self) -> int {
        self.width as int
    }

    /// The number of pixel rows.
    pub closed spec fn spec_height(self) -> int {
        self.height as int
    }

    /// The pixel intensities, row by row from the north: the pixel in column
    /// `x` of row `y` is at index `y * width + x`.
    pub closed spec fn spec_data(self) -> Seq<u8> {
        self.data@
    }

    /// Builds a raster from its dimensions and its row-major samples.
    /// Rejects dimensions that make bilinear interpolation ill-defined.
    pub fn from_raw(width: u32, height: u32, data: Vec<u8>) -> (r: Result<RasterGrid, EngineError>)
        requires
            data@.len() == width * height,
        ensures
            r is Ok <==> (2 <= width && 2 <= height),
            r matches Ok(g) ==> g.spec_width() == width && g.spec_height() == height
                && g.spec_data() == data@,
            r matches Err(e) ==> e == EngineError::DimensionTooSmall,
    {
        if width >= 2 && height >= 2 {
            Ok(RasterGrid { width, height, data })
        } else {
            Err(EngineError::DimensionTooSmall)
        }
    }

    /// The number of pixel columns, always at least 2.
    pub fn width(&self) -> (r: u32)
        ensures
            r == self.spec_width(),
            2 <= r,
    {
        proof {
            use_type_invariant(&*self);
        }
        self.width
    }

    /// The number of pixel rows, always at least 2.
    pub fn height(&self) -> (r: u32)
        ensures
            r == self.spec_height(),
            2 <= r,
    {
        proof {
            use_type_invariant(&*self);
        }
        self.height
    }

    /// The raw sample in column `x` of row `y`.
    pub fn get(&self, x: u32, y: u32) -> (r: u8)
        requires
            x < self.spec_width(),
            y < self.spec_height(),
        ensures
            r == pixel_at(self.spec_data(), self.spec_width(), x as int, y as int),
    {
        // a Vec is never longer than usize::MAX, so the grid area, and with it
        // every row offset, fits a usize
        let _len: usize = self.data.len();
        proof {
            use_type_invariant(&*self);
            assert((y as int) * (self.width as int) + (x as int) < (self.width as int) * (
            self.height as int)) by (nonlinear_arith)
                requires
                    0 <= x < self.width as int,
                    0 <= y < self.height as int,
            ;
        }
        let idx: usize = (y as usize) * (self.width as usize) + (x as usize);
        self.data[idx]
    }

    /// Bilinear lookup of the intensity at a geographic coordinate, as the
    /// exact numerator over `SAMPLE_DEN`. The result is the blend of the four
    /// samples surrounding the coordinate's fractional pixel position, and
    /// always lies within the 8-bit intensity range: `0 <= r <= 255 *
    /// SAMPLE_DEN`. Coordinates at the poles or the antimeridian read the
    /// clamped edge pixels and never index out of bounds.
    pub fn luminance_at_latlng(&self, coord: GeoCoordinate) -> (r: u64)
        ensures
            r == sample_num(
                self.spec_data(),
                self.spec_width(),
                self.spec_height(),
                coord.lat(),
                coord.lng(),
            ),
            r <= 255 * SAMPLE_DEN,
    {
        proof {
            use_type_invariant(&*self);
        }
        let lat_microdeg: i64 = coord.lat_microdegrees();
        let lng_microdeg: i64 = coord.lng_microdegrees();
        let wm1: u64 = (self.width - 1) as u64;
        let hm1: u64 = (self.height - 1) as u64;
        let lng_off: u64 = (lng_microdeg + LNG_LIMIT_MICRODEG) as u64;
        let lat_off: u64 = (LAT_LIMIT_MICRODEG - lat_microdeg) as u64;
        proof {
            lemma_mul_inequality(lng_off as int, 360_000_000, wm1 as int);
            lemma_mul_inequality(lat_off as int, 180_000_000, hm1 as int);
        }
        let fxn: u64 = lng_off * wm1;
        let fyn: u64 = lat_off * hm1;
        let x0: u64 = fxn / LNG_SPAN_MICRODEG;
        let dx: u64 = fxn % LNG_SPAN_MICRODEG;
        let y0: u64 = fyn / LAT_SPAN_MICRODEG;
        let dy: u64 = fyn % LAT_SPAN_MICRODEG;
        proof {
            lemma_div_is_ordered(fxn as int, 360_000_000 * (wm1 as int), 360_000_000);
            lemma_div_by_multiple(wm1 as int, 360_000_000);
            lemma_div_is_ordered(fyn as int, 180_000_000 * (hm1 as int), 180_000_000);
            lemma_div_by_multiple(hm1 as int, 180_000_000);
            assert(x0 <= wm1);
            assert(y0 <= hm1);
        }
        let x1: u64 = if x0 + 1 <= wm1 {
            x0 + 1
        } else {
            wm1
        };
        let y1: u64 = if y0 + 1 <= hm1 {
            y0 + 1
        } else {
            hm1
        };
        let g00: u64 = self.get(x0 as u32, y0 as u32) as u64;
        let g10: u64 = self.get(x1 as u32, y0 as u32) as u64;
        let g01: u64 = self.get(x0 as u32, y1 as u32) as u64;
        let g11: u64 = self.get(x1 as u32, y1 as u32) as u64;
        proof {
            lemma_mul_inequality(g00 as int, 255, (LNG_SPAN_MICRODEG - dx) as int);
            lemma_mul_inequality(g10 as int, 255, dx as int);
            lemma_mul_inequality(g01 as int, 255, (LNG_SPAN_MICRODEG - dx) as int);
            lemma_mul_inequality(g11 as int, 255, dx as int);
        }
        let top: u64 = g00 * (LNG_SPAN_MICRODEG - dx) + g10 * dx;
        let bottom: u64 = g01 * (LNG_SPAN_MICRODEG - dx) + g11 * dx;
        proof {
            lemma_mul_inequality(top as int, 255int * 360_000_000, (LAT_SPAN_MICRODEG - dy) as int);
            lemma_mul_inequality(bottom as int, 255int * 360_000_000, dy as int);
        }
        top * (LAT_SPAN_MICRODEG - dy) + bottom * dy
    }

    /// The elevation in meters at a geographic coordinate, as the exact
    /// numerator over `ELEVATION_DEN`: the affine remap
    /// `-1000 + (sample / 255) * 9000` of the bilinear sample, always within
    /// [-1000, 8000] meters.
    pub fn elevation_at_latlng(&self, coord: GeoCoordinate) -> (r: i128)
        ensures
            r == elevation_num(
                self.spec_data(),
                self.spec_width(),
                self.spec_height(),
                coord.lat(),
                coord.lng(),
            ),
            r == 600 * sample_num(
                self.spec_data(),
                self.spec_width(),
                self.spec_height(),
                coord.lat(),
                coord.lng(),
            ) - 1000 * ELEVATION_DEN,
            -1000 * ELEVATION_DEN <= r <= 8000 * ELEVATION_DEN,
    {
        let sample: u64 = self.luminance_at_latlng(coord);
        600 * (sample as i128) - 1000 * ELEVATION_DEN
    }
}

/// Sampler exactness: at a coordinate whose fractional pixel position lands
/// exactly on the pixel in column `x` of row `y` — both sub-pixel
/// remainders are zero — the bilinear sample is that pixel's raw intensity,
/// with no interpolation error beyond the fixed scaling by `SAMPLE_DEN`.
pub proof fn lemma_sample_exact_at_pixel(
    data: Seq<u8>,
    width: int,
    height: int,
    lat_microdeg: int,
    lng_microdeg: int,
    x: int,
    y: int,
)
    requires
        2 <= width,
        2 <= height,
        0 <= x < width,
        0 <= y < height,
        fx_num(width, lng_microdeg) == x * (LNG_SPAN_MICRODEG as int),
        fy_num(height, lat_microdeg) == y * (LAT_SPAN_MICRODEG as int),
    ensures
        sample_num(data, width, height, lat_microdeg, lng_microdeg) == pixel_at(data, width, x, y)
            * (SAMPLE_DEN as int),
{
    lemma_div_by_multiple(x, LNG_SPAN_MICRODEG as int);
    lemma_mod_multiples_basic(x, LNG_SPAN_MICRODEG as int);
    lemma_div_by_multiple(y, LAT_SPAN_MICRODEG as int);
    lemma_mod_multiples_basic(y, LAT_SPAN_MICRODEG as int);
    let fxn = fx_num(width, lng_microdeg);
    let fyn = fy_num(height, lat_microdeg);
    assert(fxn / (LNG_SPAN_MICRODEG as int) == x);
    assert(fxn % (LNG_SPAN_MICRODEG as int) == 0);
    assert(fyn / (LAT_SPAN_MICRODEG as int) == y);
    assert(fyn % (LAT_SPAN_MICRODEG as int) == 0);
    assert(pixel_at(data, width, x, y) * (LNG_SPAN_MICRODEG as int) * (LAT_SPAN_MICRODEG as int)
        == pixel_at(data, width, x, y) * (SAMPLE_DEN as int));
}

} // verus!
