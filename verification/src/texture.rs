//! An immutable decoded texture with nearest and bilinear sampling.
//!
//! Normalized texture coordinates are fixed-point rationals over
//! [`FRAC_ONE`]: the coordinate numerator `c` addresses the point
//! `c / FRAC_ONE` in `[0, 1)` texture space.  Nearest lookup scales by the
//! dimension, floors, and wraps by `dimension - 1` — wrapping by one less
//! than the dimension reproduces the viewer's historical edge bias, under
//! which the last texel row and column are never addressed directly.
//! Bilinear sampling blends the four texels one texel step to each side of
//! the sample point; a coordinate below the first texel clamps to index
//! zero before wrapping, as a saturating float-to-index cast would.

use vstd::prelude::*;

use crate::color::{bilerp, channel_value, Rgba, COLOR_DEN, COLOR_SCALE, FRAC_ONE};

verus! {

/// Largest accepted texture dimension: one coordinate step of `1 / FRAC_ONE`
/// must be able to distinguish neighboring texels.
pub const MAX_DIM: u32 = 0x1_0000;

/// Largest accepted coordinate numerator magnitude, i.e. coordinates up to
/// `2^24` texture widths away from the unit square; keeps the scaled
/// coordinate within `i64`.
pub const MAX_COORD: i64 = 0x100_0000_0000;

/// Why a texture could not be built or sampled.
#[derive(Clone, Copy, Debug, PartialEq, Eq, Structural)]
pub enum TextureError {
    /// The decoder handed over no usable pixel data.
    Decode,
    /// The texture's channel count is neither 3 (RGB) nor 4 (RGBA), so the
    /// byte layout is unknown.
    UnsupportedFormat,
}

/// The texel index addressed by fixed-point coordinate `coord` on an axis
/// of `dim` texels, before wrapping: the coordinate is scaled by the
/// dimension and floored, and negative coordinates clamp to zero.
pub open spec fn scaled_index(coord: int, dim: int) -> int {
    if coord < 0 {
        0
    } else {
        (coord * dim) / (FRAC_ONE as int)
    }
}

/// The texel index addressed by `coord` after the `dim - 1` wrap.
pub open spec fn wrap_index(coord: int, dim: int) -> int {
    scaled_index(coord, dim) % (dim - 1)
}

/// The fractional part of the scaled coordinate, over [`FRAC_ONE`]: the
/// bilinear blend weight of the sample point within its texel.
pub open spec fn frac_index(coord: int, dim: int) -> int {
    (coord * dim) % (FRAC_ONE as int)
}

/// The wrapped index of the tap one texel step below `coord`: stepping by
/// `-1 / dim` shifts the scaled coordinate by exactly one, and a step below
/// texel zero clamps to zero before wrapping.
pub open spec fn tap_low(coord: int, dim: int) -> int {
    (if scaled_index(coord, dim) == 0 {
        0int
    } else {
        scaled_index(coord, dim) - 1
    }) % (dim - 1)
}

/// The wrapped index of the tap one texel step above `coord`.
pub open spec fn tap_high(coord: int, dim: int) -> int {
    (scaled_index(coord, dim) + 1) % (dim - 1)
}

/// Decoded pixel data: row-major, top-to-bottom, channels interleaved.
/// Immutable once constructed.
#[derive(Clone, Debug)]
pub struct Texture {
    data: Vec<u8>,
    width: u32,
    height: u32,
    channel_count: usize,
}

impl Texture {
    pub closed spec fn spec_width(self) -> int {
        self.width as int
    }

    pub closed spec fn spec_height(self) -> int {
        self.height as int
    }

    pub closed spec fn spec_channel_count(self) -> int {
        self.channel_count as int
    }

    /// The raw decoded bytes.
    pub closed spec fn spec_data(self) -> Seq<u8> {
        self.data@
    }

    /// Construction invariant: positive dimensions within the coordinate
    /// grid's reach, and exactly `width * height * channel_count` bytes.
    pub open spec fn wf(self) -> bool {
        &&& 1 <= self.spec_width() <= MAX_DIM
        &&& 1 <= self.spec_height() <= MAX_DIM
        &&& 1 <= self.spec_channel_count()
        &&& self.spec_data().len() == self.spec_width() * self.spec_height()
            * self.spec_channel_count()
    }

    /// Sampling wraps by `dimension - 1`, so it needs at least two texels
    /// on each axis.
    pub open spec fn sampleable(self) -> bool {
        self.wf() && self.spec_width() >= 2 && self.spec_height() >= 2
    }

    /// The raw byte of channel `c` of texel `(x, y)`.
    pub open spec fn texel_byte(self, x: int, y: int, c: int) -> int {
        self.spec_data()[(x + y * self.spec_width()) * self.spec_channel_count() + c] as int
    }

    /// The channel byte as sampling sees it: a 3-channel texture has no
    /// alpha byte and samples alpha as zero.
    pub open spec fn channel_byte(self, x: int, y: int, c: int) -> int {
        if self.spec_channel_count() == 3 && c == 3 {
            0
        } else {
            self.texel_byte(x, y, c)
        }
    }

    /// The byte offset of an in-range texel channel is within the data.
    proof fn lemma_texel_offset(self, x: int, y: int, c: int)
        requires
            self.wf(),
            0 <= x < self.spec_width(),
            0 <= y < self.spec_height(),
            0 <= c < self.spec_channel_count(),
        ensures
            0 <= (x + y * self.spec_width()) * self.spec_channel_count() + c
                < self.spec_data().len(),
            y * self.spec_width() <= (x + y * self.spec_width()) * self.spec_channel_count() + c,
            x + y * self.spec_width() <= (x + y * self.spec_width()) * self.spec_channel_count()
                + c,
            (x + y * self.spec_width()) * self.spec_channel_count()
                <= (x + y * self.spec_width()) * self.spec_channel_count() + c,
    {
        let w = self.spec_width();
        let h = self.spec_height();
        let cc = self.spec_channel_count();
        assert(x + y * w < w * h) by (nonlinear_arith)
            requires
                0 <= x < w,
                0 <= y < h,
        ;
        assert((x + y * w) * cc + c < w * h * cc) by (nonlinear_arith)
            requires
                0 <= c < cc,
                0 <= x + y * w < w * h,
        ;
        assert(x + y * w <= (x + y * w) * cc) by (nonlinear_arith)
            requires
                1 <= cc,
                0 <= x + y * w,
        ;
        assert(0 <= y * w) by (nonlinear_arith)
            requires
                0 <= y,
                0 <= w,
        ;
    }

    /// Stores a decoded buffer after validating it.  Construction succeeds
    /// exactly when the decoder handed over a non-empty buffer of exactly
    /// `width * height * channel_count` bytes and both dimensions are
    /// addressable by the coordinate grid; otherwise the decode result is
    /// unusable and the error says so.
    pub fn new(data: Vec<u8>, width: u32, height: u32, channel_count: usize) -> (r: Result<
        Texture,
        TextureError,
    >)
        ensures
            r is Ok <==> {
                &&& data@.len() > 0
                &&& data@.len() == width * height * channel_count
                &&& width <= MAX_DIM
                &&& height <= MAX_DIM
            },
            r is Ok ==> {
                let t = r->Ok_0;
                &&& t.wf()
                &&& t.spec_data() == data@
                &&& t.spec_width() == width
                &&& t.spec_height() == height
                &&& t.spec_channel_count() == channel_count
            },
            r is Err ==> r->Err_0 == TextureError::Decode,
    {
        let n: usize = data.len();
        if n == 0 || width == 0 || width > MAX_DIM || height == 0 || height > MAX_DIM {
            proof {
                if width == 0 || height == 0 {
                    assert(width as int * height as int * channel_count as int == 0)
                        by (nonlinear_arith)
                        requires
                            width as int == 0 || height as int == 0,
                    ;
                }
            }
            return Err(TextureError::Decode);
        }
        proof {
            assert(width as int * height as int <= 0x1_0000_0000) by (nonlinear_arith)
                requires
                    0 <= width as int <= 0x1_0000,
                    0 <= height as int <= 0x1_0000,
            ;
        }
        let area: u64 = (width as u64) * (height as u64);
        let expected: Option<u64> = area.checked_mul(channel_count as u64);
        match expected {
            Some(total) => {
                if (n as u64) == total {
                    proof {
                        assert(n > 0 && n == width as int * height as int * channel_count as int);
                        assert(channel_count >= 1) by (nonlinear_arith)
                            requires
                                width as int * height as int * channel_count as int > 0,
                        ;
                    }
                    Ok(Texture { data, width, height, channel_count })
                } else {
                    Err(TextureError::Decode)
                }
            },
            None => {
                proof {
                    assert(data@.len() < width as int * height as int * channel_count as int)
                        by (nonlinear_arith)
                        requires
                            data@.len() <= u64::MAX,
                            width as int * height as int * channel_count as int > u64::MAX,
                    ;
                }
                Err(TextureError::Decode)
            },
        }
    }

    /// The texture's width in texels.
    pub fn width(&self) -> (r: u32)
        ensures
            r == self.spec_width(),
    {
        self.width
    }

    /// The texture's height in texels.
    pub fn height(&self) -> (r: u32)
        ensures
            r == self.spec_height(),
    {
        self.height
    }

    /// The number of interleaved channels per texel.
    pub fn channel_count(&self) -> (r: usize)
        ensures
            r == self.spec_channel_count(),
    {
        self.channel_count
    }

    /// The wrapped texel index on one axis.
    fn wrap_axis(coord: i64, dim: u32) -> (r: usize)
        requires
            2 <= dim <= MAX_DIM,
            -MAX_COORD <= coord <= MAX_COORD,
        ensures
            r == wrap_index(coord as int, dim as int),
            r < dim - 1,
    {
        let scaled: u64 = if coord < 0 {
            0
        } else {
            proof {
                assert(coord as int * dim as int <= 0x100_0000_0000 * 0x1_0000)
                    by (nonlinear_arith)
                    requires
                        0 <= coord as int <= 0x100_0000_0000,
                        0 <= dim as int <= 0x1_0000,
                ;
            }
            (coord as u64) * (dim as u64) / FRAC_ONE
        };
        (scaled % ((dim as u64) - 1)) as usize
    }

    /// Reads the raw byte of channel `c` of texel `(x, y)`.
    fn read_channel(&self, x: usize, y: usize, c: usize) -> (r: u8)
        requires
            self.wf(),
            x < self.spec_width(),
            y < self.spec_height(),
            c < self.spec_channel_count(),
        ensures
            r as int == self.texel_byte(x as int, y as int, c as int),
    {
        let n: usize = self.data.len();
        proof {
            self.lemma_texel_offset(x as int, y as int, c as int);
        }
        let w: usize = self.width as usize;
        let i: usize = (x + y * w) * self.channel_count + c;
        self.data[i]
    }

    /// Reads the four channel bytes of texel `(x, y)`, with alpha zero on a
    /// 3-channel texture.
    fn texel_channels(&self, x: usize, y: usize) -> (r: (u8, u8, u8, u8))
        requires
            self.wf(),
            self.spec_channel_count() == 3 || self.spec_channel_count() == 4,
            x < self.spec_width(),
            y < self.spec_height(),
        ensures
            r.0 as int == self.channel_byte(x as int, y as int, 0),
            r.1 as int == self.channel_byte(x as int, y as int, 1),
            r.2 as int == self.channel_byte(x as int, y as int, 2),
            r.3 as int == self.channel_byte(x as int, y as int, 3),
    {
        let c0: u8 = self.read_channel(x, y, 0);
        let c1: u8 = self.read_channel(x, y, 1);
        let c2: u8 = self.read_channel(x, y, 2);
        let c3: u8 = if self.channel_count == 4 {
            self.read_channel(x, y, 3)
        } else {
            0
        };
        (c0, c1, c2, c3)
    }

    /// Nearest (point) lookup at fixed-point coordinates `(x, y)`, each the
    /// numerator of a coordinate over [`FRAC_ONE`].  Succeeds exactly on 3-
    /// and 4-channel textures; each returned channel is the `255.99`-
    /// normalized value of the byte at the wrapped texel, and a 3-channel
    /// texture yields alpha zero.
    pub fn get_pixel(&self, x: i64, y: i64) -> (r: Result<Rgba, TextureError>)
        requires
            self.sampleable(),
            -MAX_COORD <= x <= MAX_COORD,
            -MAX_COORD <= y <= MAX_COORD,
        ensures
            r is Ok <==> (self.spec_channel_count() == 3 || self.spec_channel_count() == 4),
            r is Err ==> r->Err_0 == TextureError::UnsupportedFormat,
            r is Ok ==> {
                let px = wrap_index(x as int, self.spec_width());
                let py = wrap_index(y as int, self.spec_height());
                let c = r->Ok_0;
                &&& c.r == channel_value(self.channel_byte(px, py, 0))
                &&& c.g == channel_value(self.channel_byte(px, py, 1))
                &&& c.b == channel_value(self.channel_byte(px, py, 2))
                &&& c.a == channel_value(self.channel_byte(px, py, 3))
                &&& c.r <= COLOR_DEN
                &&& c.g <= COLOR_DEN
                &&& c.b <= COLOR_DEN
                &&& c.a <= COLOR_DEN
                &&& (self.spec_channel_count() == 3 ==> c.a == 0)
            },
    {
        if self.channel_count != 3 && self.channel_count != 4 {
            return Err(TextureError::UnsupportedFormat);
        }
        let px: usize = Self::wrap_axis(x, self.width);
        let py: usize = Self::wrap_axis(y, self.height);
        let (c0, c1, c2, c3): (u8, u8, u8, u8) = self.texel_channels(px, py);
        Ok(
            Rgba {
                r: (c0 as u64) * COLOR_SCALE,
                g: (c1 as u64) * COLOR_SCALE,
                b: (c2 as u64) * COLOR_SCALE,
                a: (c3 as u64) * COLOR_SCALE,
            },
        )
    }

    /// One bilinearly blended channel, as the exec image of [`bilerp`].
    fn blend_channel(tl: u8, tr: u8, bl: u8, br: u8, fx: u64, fy: u64) -> (r: u64)
        requires
            fx < FRAC_ONE,
            fy < FRAC_ONE,
        ensures
            r as int == bilerp(tl as int, tr as int, bl as int, br as int, fx as int, fy as int),
            r <= COLOR_SCALE * 255,
    {
        proof {
            assert((0x1_0000 - fx) * tl + fx * tr <= 0x1_0000 * 255) by (nonlinear_arith)
                requires
                    fx <= 0x1_0000,
                    tl <= 255,
                    tr <= 255,
            ;
            assert((0x1_0000 - fx) * bl + fx * br <= 0x1_0000 * 255) by (nonlinear_arith)
                requires
                    fx <= 0x1_0000,
                    bl <= 255,
                    br <= 255,
            ;
        }
        let top: u64 = (FRAC_ONE - fx) * (tl as u64) + fx * (tr as u64);
        let bottom: u64 = (FRAC_ONE - fx) * (bl as u64) + fx * (br as u64);
        proof {
            assert((0x1_0000 - fy) * top + fy * bottom <= 0x1_0000 * 0xFF_0000)
                by (nonlinear_arith)
                requires
                    fy <= 0x1_0000,
                    top <= 0xFF_0000,
                    bottom <= 0xFF_0000,
            ;
        }
        100 * ((FRAC_ONE - fy) * top + fy * bottom)
    }

    /// Bilinear sampling at fixed-point coordinates `(x, y)` in the unit
    /// square.  Succeeds exactly on 3- and 4-channel textures; each
    /// returned channel is the [`bilerp`] blend of the four taps one texel
    /// step around the sample point — horizontally first, then vertically,
    /// weighted by the fractional texel position — with the `dim - 1` wrap
    /// of nearest lookup applied to every tap.  A 3-channel texture yields
    /// alpha zero.
    pub fn sample_pixel(&self, x: u32, y: u32) -> (r: Result<Rgba, TextureError>)
        requires
            self.sampleable(),
            x < FRAC_ONE,
            y < FRAC_ONE,
        ensures
            r is Ok <==> (self.spec_channel_count() == 3 || self.spec_channel_count() == 4),
            r is Err ==> r->Err_0 == TextureError::UnsupportedFormat,
            r is Ok ==> {
                let xl = tap_low(x as int, self.spec_width());
                let xh = tap_high(x as int, self.spec_width());
                let yl = tap_low(y as int, self.spec_height());
                let yh = tap_high(y as int, self.spec_height());
                let fx = frac_index(x as int, self.spec_width());
                let fy = frac_index(y as int, self.spec_height());
                let c = r->Ok_0;
                &&& c.r == bilerp(
                    self.channel_byte(xl, yl, 0),
                    self.channel_byte(xh, yl, 0),
                    self.channel_byte(xl, yh, 0),
                    self.channel_byte(xh, yh, 0),
                    fx,
                    fy,
                )
                &&& c.g == bilerp(
                    self.channel_byte(xl, yl, 1),
                    self.channel_byte(xh, yl, 1),
                    self.channel_byte(xl, yh, 1),
                    self.channel_byte(xh, yh, 1),
                    fx,
                    fy,
                )
                &&& c.b == bilerp(
                    self.channel_byte(xl, yl, 2),
                    self.channel_byte(xh, yl, 2),
                    self.channel_byte(xl, yh, 2),
                    self.channel_byte(xh, yh, 2),
                    fx,
                    fy,
                )
                &&& c.a == bilerp(
                    self.channel_byte(xl, yl, 3),
                    self.channel_byte(xh, yl, 3),
                    self.channel_byte(xl, yh, 3),
                    self.channel_byte(xh, yh, 3),
                    fx,
                    fy,
                )
                &&& c.r <= COLOR_DEN
                &&& c.g <= COLOR_DEN
                &&& c.b <= COLOR_DEN
                &&& c.a <= COLOR_DEN
                &&& (self.spec_channel_count() == 3 ==> c.a == 0)
            },
    {
        if self.channel_count != 3 && self.channel_count != 4 {
            return Err(TextureError::UnsupportedFormat);
        }
        let w: u64 = self.width as u64;
        let h: u64 = self.height as u64;
        proof {
            assert(x as int * w as int <= 0x1_0000 * 0x1_0000) by (nonlinear_arith)
                requires
                    0 <= x as int <= 0x1_0000,
                    0 <= w as int <= 0x1_0000,
            ;
            assert(y as int * h as int <= 0x1_0000 * 0x1_0000) by (nonlinear_arith)
                requires
                    0 <= y as int <= 0x1_0000,
                    0 <= h as int <= 0x1_0000,
            ;
        }
        let sx: u64 = (x as u64) * w / FRAC_ONE;
        let fx: u64 = (x as u64) * w % FRAC_ONE;
        let sy: u64 = (y as u64) * h / FRAC_ONE;
        let fy: u64 = (y as u64) * h % FRAC_ONE;
        let xl: usize = ((if sx == 0 {
            0
        } else {
            sx - 1
        }) % (w - 1)) as usize;
        let xh: usize = ((sx + 1) % (w - 1)) as usize;
        let yl: usize = ((if sy == 0 {
            0
        } else {
            sy - 1
        }) % (h - 1)) as usize;
        let yh: usize = ((sy + 1) % (h - 1)) as usize;
        let tl: (u8, u8, u8, u8) = self.texel_channels(xl, yl);
        let tr: (u8, u8, u8, u8) = self.texel_channels(xh, yl);
        let bl: (u8, u8, u8, u8) = self.texel_channels(xl, yh);
        let br: (u8, u8, u8, u8) = self.texel_channels(xh, yh);
        let out: Rgba = Rgba {
            r: Self::blend_channel(tl.0, tr.0, bl.0, br.0, fx, fy),
            g: Self::blend_channel(tl.1, tr.1, bl.1, br.1, fx, fy),
            b: Self::blend_channel(tl.2, tr.2, bl.2, br.2, fx, fy),
            a: Self::blend_channel(tl.3, tr.3, bl.3, br.3, fx, fy),
        };
        proof {
            if self.spec_channel_count() == 3 {
                crate::color::lemma_bilerp_bounds(0, 0, 0, 0, fx as int, fy as int, 0, 0);
            }
        }
        Ok(out)
    }
}

/// The smaller of two values.
pub open spec fn min2(a: int, b: int) -> int {
    if a <= b {
        a
    } else {
        b
    }
}

/// The larger of two values.
pub open spec fn max2(a: int, b: int) -> int {
    if a >= b {
        a
    } else {
        b
    }
}

/// Every channel a bilinear sample returns lies in the convex hull of the
/// four nearest-lookup taps it blends: between the normalized values of the
/// smallest and the largest contributing channel byte.  The blended bytes
/// and weights here are exactly those named by `sample_pixel`'s contract,
/// and each normalized tap is what `get_pixel` returns at that texel.
pub proof fn lemma_sample_within_taps(t: Texture, x: u32, y: u32, c: int)
    requires
        t.sampleable(),
        x < FRAC_ONE,
        y < FRAC_ONE,
        0 <= c < 4,
    ensures
        ({
            let xl = tap_low(x as int, t.spec_width());
            let xh = tap_high(x as int, t.spec_width());
            let yl = tap_low(y as int, t.spec_height());
            let yh = tap_high(y as int, t.spec_height());
            let fx = frac_index(x as int, t.spec_width());
            let fy = frac_index(y as int, t.spec_height());
            let blended = bilerp(
                t.channel_byte(xl, yl, c),
                t.channel_byte(xh, yl, c),
                t.channel_byte(xl, yh, c),
                t.channel_byte(xh, yh, c),
                fx,
                fy,
            );
            let lo = min2(
                min2(t.channel_byte(xl, yl, c), t.channel_byte(xh, yl, c)),
                min2(t.channel_byte(xl, yh, c), t.channel_byte(xh, yh, c)),
            );
            let hi = max2(
                max2(t.channel_byte(xl, yl, c), t.channel_byte(xh, yl, c)),
                max2(t.channel_byte(xl, yh, c), t.channel_byte(xh, yh, c)),
            );
            channel_value(lo) <= blended && blended <= channel_value(hi)
        }),
{
    let w = t.spec_width();
    let h = t.spec_height();
    let xl = tap_low(x as int, w);
    let xh = tap_high(x as int, w);
    let yl = tap_low(y as int, h);
    let yh = tap_high(y as int, h);
    let fx = frac_index(x as int, w);
    let fy = frac_index(y as int, h);
    assert(0 <= (x as int) * w) by (nonlinear_arith)
        requires
            0 <= x as int,
            0 <= w,
    ;
    assert(0 <= fx < FRAC_ONE);
    assert(0 <= (y as int) * h) by (nonlinear_arith)
        requires
            0 <= y as int,
            0 <= h,
    ;
    assert(0 <= fy < FRAC_ONE);
    let lo = min2(
        min2(t.channel_byte(xl, yl, c), t.channel_byte(xh, yl, c)),
        min2(t.channel_byte(xl, yh, c), t.channel_byte(xh, yh, c)),
    );
    let hi = max2(
        max2(t.channel_byte(xl, yl, c), t.channel_byte(xh, yl, c)),
        max2(t.channel_byte(xl, yh, c), t.channel_byte(xh, yh, c)),
    );
    crate::color::lemma_bilerp_bounds(
        t.channel_byte(xl, yl, c),
        t.channel_byte(xh, yl, c),
        t.channel_byte(xl, yh, c),
        t.channel_byte(xh, yh, c),
        fx,
        fy,
        lo,
        hi,
    );
}

} // verus!
