//! Pixel colors and the per-format image decoders.
//!
//! Each decoder is a pure function of (byte buffer, width, height): the
//! block-compressed formats expand fixed 4x4 texel tiles, the uncompressed
//! formats reorder channels. Every decoder states, texel by texel, which
//! color lands at which pixel of the row-major output.

use vstd::prelude::*;

use crate::vtf::error::VTFError;
use crate::vtf::format::{le16, read_u16_le, VTFImageFormat};

verus! {

/// A packed 16-bit color: five bits of red, six of green, five of blue,
/// each kept in its own byte after unpacking.
#[derive(Debug, Clone, Copy, PartialEq, Eq, Structural)]
pub struct Rgb565 {
    /// Five significant bits.
    pub red: u8,
    /// Six significant bits.
    pub green: u8,
    /// Five significant bits.
    pub blue: u8,
}

/// A 24-bit color, eight bits per channel.
#[derive(Debug, Clone, Copy, PartialEq, Eq, Structural)]
pub struct Rgb8 {
    pub red: u8,
    pub green: u8,
    pub blue: u8,
}

/// A 24-bit color in blue-green-red byte order, as stored on disk.
#[derive(Debug, Clone, Copy, PartialEq, Eq, Structural)]
pub struct Bgr8 {
    pub blue: u8,
    pub green: u8,
    pub red: u8,
}

/// A color with sixteen bits of room per channel, for interpolation
/// arithmetic.
#[derive(Debug, Clone, Copy, PartialEq, Eq, Structural)]
pub struct Rgb16 {
    pub red: u16,
    pub green: u16,
    pub blue: u16,
}

/// A 32-bit color, eight bits per channel plus alpha.
#[derive(Debug, Clone, Copy, PartialEq, Eq, Structural)]
pub struct Rgba8 {
    pub red: u8,
    pub green: u8,
    pub blue: u8,
    pub alpha: u8,
}

/// A 32-bit color in blue-green-red-alpha byte order, as stored on disk.
#[derive(Debug, Clone, Copy, PartialEq, Eq, Structural)]
pub struct Bgra8 {
    pub blue: u8,
    pub green: u8,
    pub red: u8,
    pub alpha: u8,
}

/// The fields of a packed 16-bit color: bits 11 and up are red, bits 5
/// through 10 green, the low five bits blue.
pub open spec fn spec_rgb565_load(source: u16) -> Rgb565 {
    Rgb565 {
        red: ((source / 2048) % 32) as u8,
        green: ((source / 32) % 64) as u8,
        blue: (source % 32) as u8,
    }
}

/// A five-bit channel scaled to eight bits by the exact factor 255/31;
/// only the low five bits are significant.
pub open spec fn expand5(x: u8) -> u8 {
    ((x as int % 32) * 255 / 31) as u8
}

/// A six-bit channel scaled to eight bits by the exact factor 255/63;
/// only the low six bits are significant.
pub open spec fn expand6(x: u8) -> u8 {
    ((x as int % 64) * 255 / 63) as u8
}

/// A packed 16-bit color expanded to eight bits per channel.
pub open spec fn spec_rgb565_to_rgb8(c: Rgb565) -> Rgb8 {
    Rgb8 { red: expand5(c.red), green: expand6(c.green), blue: expand5(c.blue) }
}

/// The two interpolated palette entries of a color block: one third of
/// the way from one endpoint to the other, per channel, in integer
/// arithmetic. `factor` true takes two parts of `c0`; false, two of `c1`.
pub open spec fn spec_interp_color(c0: Rgb8, c1: Rgb8, factor: bool) -> Rgb8 {
    if factor {
        Rgb8 {
            red: ((2 * c0.red + c1.red) / 3) as u8,
            green: ((2 * c0.green + c1.green) / 3) as u8,
            blue: ((2 * c0.blue + c1.blue) / 3) as u8,
        }
    } else {
        Rgb8 {
            red: ((c0.red + 2 * c1.red) / 3) as u8,
            green: ((c0.green + 2 * c1.green) / 3) as u8,
            blue: ((c0.blue + 2 * c1.blue) / 3) as u8,
        }
    }
}

/// An alpha value interpolated on the eight-entry table: entry `2 + k`
/// weighs the endpoints `6 - k` and `1 + k` sevenths.
pub open spec fn spec_interp_alpha_8bit(a0: u8, a1: u8, factor: u8) -> u8 {
    (((6 - factor) * a0 + (1 + factor) * a1 + 3) / 7) as u8
}

/// An alpha value interpolated on the six-entry table: entry `2 + k`
/// weighs the endpoints `4 - k` and `1 + k` fifths.
pub open spec fn spec_interp_alpha_6bit(a0: u8, a1: u8, factor: u8) -> u8 {
    (((4 - factor) * a0 + (1 + factor) * a1 + 2) / 5) as u8
}

impl Rgb565 {
    /// Unpacks a 16-bit color into its three channels.
    pub fn load(source: u16) -> (r: Rgb565)
        ensures
            r == spec_rgb565_load(source),
    {
        Rgb565 {
            red: ((source / 2048) % 32) as u8,
            green: ((source / 32) % 64) as u8,
            blue: (source % 32) as u8,
        }
    }
}

/// A color encoding that converts to and from the two canonical
/// in-memory layouts.
pub trait ColorType where Self: Sized {
    /// What `to_rgb8` returns.
    spec fn spec_rgb8(&self) -> Rgb8;

    /// What `to_rgba8` returns.
    spec fn spec_rgba8(&self) -> Rgba8;

    /// What `from_rgb888` returns.
    spec fn spec_from_rgb888(rgb: Rgb8) -> Self;

    /// What `from_rgba8888` returns.
    spec fn spec_from_rgba8888(rgba: Rgba8) -> Self;

    /// This color in canonical 24-bit form.
    fn to_rgb8(&self) -> (r: Rgb8)
        ensures
            r == self.spec_rgb8(),
    ;

    /// This encoding's value for a canonical 24-bit color.
    fn from_rgb888(rgb: Rgb8) -> (r: Self)
        ensures
            r == Self::spec_from_rgb888(rgb),
    ;

    /// This color in canonical 32-bit form.
    fn to_rgba8(&self) -> (r: Rgba8)
        ensures
            r == self.spec_rgba8(),
    ;

    /// This encoding's value for a canonical 32-bit color.
    fn from_rgba8888(rgba: Rgba8) -> (r: Self)
        ensures
            r == Self::spec_from_rgba8888(rgba),
    ;
}

impl ColorType for Rgb565 {
    open spec fn spec_rgb8(&self) -> Rgb8 {
        spec_rgb565_to_rgb8(*self)
    }

    open spec fn spec_rgba8(&self) -> Rgba8 {
        Rgba8 {
            red: expand5(self.red),
            green: expand6(self.green),
            blue: expand5(self.blue),
            alpha: 255,
        }
    }

    open spec fn spec_from_rgb888(rgb: Rgb8) -> Rgb565 {
        Rgb565 {
            red: ((rgb.red as int) * 31 / 255) as u8,
            green: ((rgb.green as int) * 63 / 255) as u8,
            blue: ((rgb.blue as int) * 31 / 255) as u8,
        }
    }

    open spec fn spec_from_rgba8888(rgba: Rgba8) -> Rgb565 {
        Self::spec_from_rgb888(Rgb8 { red: rgba.red, green: rgba.green, blue: rgba.blue })
    }

    fn to_rgb8(&self) -> (r: Rgb8) {
        let rr = ((self.red % 32) as u32 * 255) / 31;
        let gg = ((self.green % 64) as u32 * 255) / 63;
        let bb = ((self.blue % 32) as u32 * 255) / 31;
        proof {
            vstd::arithmetic::div_mod::lemma_div_is_ordered(
                ((self.red % 32) as u32 * 255) as int,
                7905,
                31,
            );
            vstd::arithmetic::div_mod::lemma_div_is_ordered(
                ((self.green % 64) as u32 * 255) as int,
                16065,
                63,
            );
            vstd::arithmetic::div_mod::lemma_div_is_ordered(
                ((self.blue % 32) as u32 * 255) as int,
                7905,
                31,
            );
        }
        proof {
            assert(self.spec_rgb8() == spec_rgb565_to_rgb8(*self));
            assert(rr as u8 == expand5(self.red));
        }
        Rgb8 { red: rr as u8, green: gg as u8, blue: bb as u8 }
    }

    fn from_rgb888(rgb: Rgb8) -> (r: Rgb565) {
        Rgb565 {
            red: ((rgb.red as u32 * 31) / 255) as u8,
            green: ((rgb.green as u32 * 63) / 255) as u8,
            blue: ((rgb.blue as u32 * 31) / 255) as u8,
        }
    }

    fn to_rgba8(&self) -> (r: Rgba8) {
        let rgb = self.to_rgb8();
        Rgba8 { red: rgb.red, green: rgb.green, blue: rgb.blue, alpha: 255 }
    }

    fn from_rgba8888(rgba: Rgba8) -> (r: Rgb565) {
        Rgb565::from_rgb888(Rgb8 { red: rgba.red, green: rgba.green, blue: rgba.blue })
    }
}

impl ColorType for Bgr8 {
    open spec fn spec_rgb8(&self) -> Rgb8 {
        Rgb8 { red: self.red, green: self.green, blue: self.blue }
    }

    open spec fn spec_rgba8(&self) -> Rgba8 {
        Rgba8 { red: self.red, green: self.green, blue: self.blue, alpha: 255 }
    }

    open spec fn spec_from_rgb888(rgb: Rgb8) -> Bgr8 {
        Bgr8 { blue: rgb.blue, green: rgb.green, red: rgb.red }
    }

    open spec fn spec_from_rgba8888(rgba: Rgba8) -> Bgr8 {
        Bgr8 { blue: rgba.blue, green: rgba.green, red: rgba.red }
    }

    fn to_rgb8(&self) -> (r: Rgb8) {
        Rgb8 { red: self.red, green: self.green, blue: self.blue }
    }

    fn from_rgb888(rgb: Rgb8) -> (r: Bgr8) {
        Bgr8 { blue: rgb.blue, green: rgb.green, red: rgb.red }
    }

    fn to_rgba8(&self) -> (r: Rgba8) {
        Rgba8 { red: self.red, green: self.green, blue: self.blue, alpha: 255 }
    }

    fn from_rgba8888(rgba: Rgba8) -> (r: Bgr8) {
        Bgr8 { blue: rgba.blue, green: rgba.green, red: rgba.red }
    }
}

impl ColorType for Bgra8 {
    open spec fn spec_rgb8(&self) -> Rgb8 {
        Rgb8 { red: self.red, green: self.green, blue: self.blue }
    }

    open spec fn spec_rgba8(&self) -> Rgba8 {
        Rgba8 { red: self.red, green: self.green, blue: self.blue, alpha: self.alpha }
    }

    open spec fn spec_from_rgb888(rgb: Rgb8) -> Bgra8 {
        Bgra8 { blue: rgb.blue, green: rgb.green, red: rgb.red, alpha: 255 }
    }

    open spec fn spec_from_rgba8888(rgba: Rgba8) -> Bgra8 {
        Bgra8 { blue: rgba.blue, green: rgba.green, red: rgba.red, alpha: rgba.alpha }
    }

    fn to_rgb8(&self) -> (r: Rgb8) {
        Rgb8 { red: self.red, green: self.green, blue: self.blue }
    }

    fn from_rgb888(rgb: Rgb8) -> (r: Bgra8) {
        Bgra8 { blue: rgb.blue, green: rgb.green, red: rgb.red, alpha: 255 }
    }

    fn to_rgba8(&self) -> (r: Rgba8) {
        Rgba8 { red: self.red, green: self.green, blue: self.blue, alpha: self.alpha }
    }

    fn from_rgba8888(rgba: Rgba8) -> (r: Bgra8) {
        Bgra8 { blue: rgba.blue, green: rgba.green, red: rgba.red, alpha: rgba.alpha }
    }
}

/// Interpolates between two colors; see [`spec_interp_color`].
pub fn interp_color(c0: &Rgb8, c1: &Rgb8, factor: bool) -> (r: Rgb8)
    ensures
        r == spec_interp_color(*c0, *c1, factor),
{
    let c0w = Rgb16 { red: c0.red as u16, green: c0.green as u16, blue: c0.blue as u16 };
    let c1w = Rgb16 { red: c1.red as u16, green: c1.green as u16, blue: c1.blue as u16 };
    if factor {
        Rgb8 {
            red: ((2 * c0w.red + c1w.red) / 3) as u8,
            green: ((2 * c0w.green + c1w.green) / 3) as u8,
            blue: ((2 * c0w.blue + c1w.blue) / 3) as u8,
        }
    } else {
        Rgb8 {
            red: ((c0w.red + 2 * c1w.red) / 3) as u8,
            green: ((c0w.green + 2 * c1w.green) / 3) as u8,
            blue: ((c0w.blue + 2 * c1w.blue) / 3) as u8,
        }
    }
}

/// Interpolates on the eight-entry alpha table; see
/// [`spec_interp_alpha_8bit`].
pub fn interp_alpha_8bit(a0: u8, a1: u8, factor: u8) -> (r: u8)
    requires
        factor <= 5,
    ensures
        r == spec_interp_alpha_8bit(a0, a1, factor),
{
    let a0w = a0 as u32;
    let a1w = a1 as u32;
    let fw = factor as u32;
    proof {
        assert((6 - fw) * a0w + (1 + fw) * a1w + 3 <= 7 * 255 + 3) by (nonlinear_arith)
            requires
                a0w <= 255,
                a1w <= 255,
                fw <= 5,
        ;
    }
    (((6 - fw) * a0w + (1 + fw) * a1w + 3) / 7) as u8
}

/// Interpolates on the six-entry alpha table; see
/// [`spec_interp_alpha_6bit`].
pub fn interp_alpha_6bit(a0: u8, a1: u8, factor: u8) -> (r: u8)
    requires
        factor <= 3,
    ensures
        r == spec_interp_alpha_6bit(a0, a1, factor),
{
    let a0w = a0 as u16;
    let a1w = a1 as u16;
    let fw = factor as u16;
    proof {
        assert((4 - fw) * a0w + (1 + fw) * a1w + 2 <= 5 * 255 + 2) by (nonlinear_arith)
            requires
                a0w <= 255,
                a1w <= 255,
                fw <= 3,
        ;
    }
    (((4 - fw) * a0w + (1 + fw) * a1w + 2) / 5) as u8
}

/// The eight-entry alpha lookup table of the second block-compressed
/// format with interpolated alpha: the endpoints themselves, then six
/// interpolated values when `a0 > a1`, or four interpolated values and
/// the two constants 0 and 255 when `a0 <= a1`.
pub open spec fn dxt5_alpha_table(a0: u8, a1: u8, j: int) -> u8 {
    if j == 0 {
        a0
    } else if j == 1 {
        a1
    } else if a0 > a1 {
        spec_interp_alpha_8bit(a0, a1, (j - 2) as u8)
    } else if j <= 5 {
        spec_interp_alpha_6bit(a0, a1, (j - 2) as u8)
    } else if j == 6 {
        0u8
    } else {
        255u8
    }
}

/// The alpha table is pinned at its ends: entries 0 and 1 are the stored
/// endpoints themselves, and in the six-entry mode entries 6 and 7 are
/// the constants 0 and 255.
pub proof fn lemma_dxt5_alpha_endpoints(a0: u8, a1: u8)
    ensures
        dxt5_alpha_table(a0, a1, 0) == a0,
        dxt5_alpha_table(a0, a1, 1) == a1,
        a0 <= a1 ==> dxt5_alpha_table(a0, a1, 6) == 0 && dxt5_alpha_table(a0, a1, 7) == 255,
{
}

/// One eight-byte color block: two packed 16-bit endpoint colors and one
/// byte of two-bit palette indices per texel row.
#[derive(Debug, Clone, Copy, PartialEq, Eq, Structural)]
pub struct ColorBlock {
    pub c0: u16,
    pub c1: u16,
    pub idx0: u8,
    pub idx1: u8,
    pub idx2: u8,
    pub idx3: u8,
}

/// The index byte covering texel row `r` of a block.
pub open spec fn block_row(b: ColorBlock, r: int) -> u8 {
    if r == 0 {
        b.idx0
    } else if r == 1 {
        b.idx1
    } else if r == 2 {
        b.idx2
    } else {
        b.idx3
    }
}

/// The divisor that brings texel `t mod 4`'s two index bits to the
/// bottom of its row byte.
pub open spec fn index_divisor(t: int) -> u8 {
    if t % 4 == 0 {
        1u8
    } else if t % 4 == 1 {
        4u8
    } else if t % 4 == 2 {
        16u8
    } else {
        64u8
    }
}

/// The two-bit palette index of texel `t` (0 through 15, row-major
/// within the block).
pub open spec fn dxt1_index(b: ColorBlock, t: int) -> int {
    (block_row(b, t / 4) / index_divisor(t)) as int % 4
}

/// The block's four-entry palette: the two endpoints, then the two
/// interpolated thirds.
pub open spec fn dxt1_palette(b: ColorBlock, j: int) -> Rgb8 {
    let c0 = spec_rgb565_to_rgb8(spec_rgb565_load(b.c0));
    let c1 = spec_rgb565_to_rgb8(spec_rgb565_load(b.c1));
    if j == 0 {
        c0
    } else if j == 1 {
        c1
    } else if j == 2 {
        spec_interp_color(c0, c1, true)
    } else {
        spec_interp_color(c0, c1, false)
    }
}

/// The color the block assigns to its texel `t`.
pub open spec fn dxt1_texel(b: ColorBlock, t: int) -> Rgb8 {
    dxt1_palette(b, dxt1_index(b, t))
}

/// The degenerate-interpolation law: when a block's two endpoint colors
/// are equal, all four palette entries coincide, so every texel of the
/// block decodes to that one expanded color, whatever its index bits say.
pub proof fn lemma_dxt1_degenerate(b: ColorBlock, t: int)
    requires
        b.c0 == b.c1,
        0 <= t < 16,
    ensures
        dxt1_texel(b, t) == spec_rgb565_to_rgb8(spec_rgb565_load(b.c0)),
{
}

/// Decodes one texel of a color block; see [`dxt1_texel`].
fn texel_color(b: &ColorBlock, t: usize) -> (r: Rgb8)
    requires
        t < 16,
    ensures
        r == dxt1_texel(*b, t as int),
{
    let p0 = Rgb565::load(b.c0).to_rgb8();
    let p1 = Rgb565::load(b.c1).to_rgb8();
    let row = if t / 4 == 0 {
        b.idx0
    } else if t / 4 == 1 {
        b.idx1
    } else if t / 4 == 2 {
        b.idx2
    } else {
        b.idx3
    };
    let d: u8 = if t % 4 == 0 {
        1
    } else if t % 4 == 1 {
        4
    } else if t % 4 == 2 {
        16
    } else {
        64
    };
    let ci = (row / d) % 4;
    if ci == 0 {
        p0
    } else if ci == 1 {
        p1
    } else if ci == 2 {
        interp_color(&p0, &p1, true)
    } else {
        interp_color(&p0, &p1, false)
    }
}

/// A dimension clamped up to one block: the container never stores tiles
/// smaller than 4x4 texels.
pub open spec fn clamp4(x: u16) -> u16 {
    if x < 4 {
        4u16
    } else {
        x
    }
}

/// Which block of a `w`-texel-wide image covers the pixel at `(x, y)`:
/// blocks run left to right, then top to bottom, four texels a side.
pub open spec fn block_at(w: int, x: int, y: int) -> int {
    (y / 4) * (w / 4) + x / 4
}

/// Which texel of its block the pixel at `(x, y)` is: row-major within
/// the 4x4 tile.
pub open spec fn texel_at(x: int, y: int) -> int {
    (y % 4) * 4 + x % 4
}

/// The block index of an in-range pixel addresses a stored block, and
/// the pixel's own index lies inside the image.
pub proof fn lemma_block_index(w: int, h: int, x: int, y: int)
    requires
        w >= 4,
        h >= 4,
        w % 4 == 0,
        h % 4 == 0,
        0 <= x < w,
        0 <= y < h,
    ensures
        0 <= block_at(w, x, y) < w * h / 16,
        0 <= y * w + x < w * h,
        0 <= texel_at(x, y) < 16,
{
    let wq = w / 4;
    let hq = h / 4;
    vstd::arithmetic::div_mod::lemma_fundamental_div_mod(w, 4);
    vstd::arithmetic::div_mod::lemma_fundamental_div_mod(h, 4);
    vstd::arithmetic::div_mod::lemma_multiply_divide_lt(x, 4, wq);
    vstd::arithmetic::div_mod::lemma_multiply_divide_lt(y, 4, hq);
    vstd::arithmetic::div_mod::lemma_div_pos_is_pos(x, 4);
    vstd::arithmetic::div_mod::lemma_div_pos_is_pos(y, 4);
    vstd::arithmetic::mul::lemma_mul_nonnegative(y / 4, wq);
    vstd::arithmetic::mul::lemma_mul_inequality(y / 4, hq - 1, wq);
    vstd::arithmetic::mul::lemma_mul_is_distributive_sub_other_way(wq, hq, 1);
    assert(w * h == 16 * (wq * hq)) by (nonlinear_arith)
        requires
            w == 4 * wq,
            h == 4 * hq,
    ;
    vstd::arithmetic::div_mod::lemma_div_multiples_vanish(wq * hq, 16);
    vstd::arithmetic::mul::lemma_mul_nonnegative(y, w);
    vstd::arithmetic::mul::lemma_mul_inequality(y, h - 1, w);
    vstd::arithmetic::mul::lemma_mul_is_distributive_sub_other_way(w, h, 1);
    vstd::arithmetic::mul::lemma_mul_is_commutative(w, h);
}

/// An eight-byte color block as stored at `off`: the two endpoints
/// little-endian, then the four index bytes.
pub open spec fn spec_color_block(b: Seq<u8>, off: int) -> ColorBlock {
    ColorBlock {
        c0: le16(b, off),
        c1: le16(b, off + 2),
        idx0: b[off + 4],
        idx1: b[off + 5],
        idx2: b[off + 6],
        idx3: b[off + 7],
    }
}

/// The canonical 32-bit form of a 24-bit color with the given alpha.
pub open spec fn with_alpha(c: Rgb8, a: u8) -> Rgba8 {
    Rgba8 { red: c.red, green: c.green, blue: c.blue, alpha: a }
}

/// The 24-bit form of a 32-bit color, alpha dropped.
pub open spec fn without_alpha(c: Rgba8) -> Rgb8 {
    Rgb8 { red: c.red, green: c.green, blue: c.blue }
}

/// A decoded image: it knows its dimensions and hands its pixels out in
/// the two canonical layouts, row-major with no padding.
pub trait VTFImage where Self: Sized {
    /// The shape invariant decoding relies on.
    spec fn wf(&self) -> bool;

    /// The stored width in texels.
    spec fn spec_width(&self) -> u16;

    /// The stored height in texels.
    spec fn spec_height(&self) -> u16;

    /// The pixels `to_rgb8` yields, row-major.
    spec fn spec_rgb8(&self) -> Seq<Rgb8>;

    /// The pixels `to_rgba8` yields, row-major.
    spec fn spec_rgba8(&self) -> Seq<Rgba8>;

    /// Decodes to 24-bit pixels.
    fn to_rgb8(&self) -> (r: Vec<Rgb8>)
        requires
            self.wf(),
        ensures
            r@ == self.spec_rgb8(),
    ;

    /// Decodes to 32-bit pixels.
    fn to_rgba8(&self) -> (r: Vec<Rgba8>)
        requires
            self.wf(),
        ensures
            r@ == self.spec_rgba8(),
    ;

    /// The width in texels.
    fn get_width(&self) -> (r: u16)
        ensures
            r == self.spec_width(),
    ;

    /// The height in texels.
    fn get_height(&self) -> (r: u16)
        ensures
            r == self.spec_height(),
    ;

    /// Decodes to a flat byte buffer, three bytes per pixel.
    fn to_rgb8_raw(&self) -> (r: Vec<u8>)
        requires
            self.wf(),
        ensures
            r@.len() == self.spec_rgb8().len() * 3,
            forall|i: int|
                0 <= i < self.spec_rgb8().len() ==> r@[3 * i] == (#[trigger] self.spec_rgb8()[
                    i
                ]).red && r@[3 * i + 1] == self.spec_rgb8()[i].green && r@[3 * i + 2]
                    == self.spec_rgb8()[i].blue,
    {
        let rgb = self.to_rgb8();
        let mut raw: Vec<u8> = Vec::new();
        let mut p: usize = 0;
        while p < rgb.len()
            invariant
                p <= rgb@.len(),
                rgb@ == self.spec_rgb8(),
                raw@.len() == 3 * p,
                forall|i: int|
                    0 <= i < p ==> raw@[3 * i] == (#[trigger] rgb@[i]).red && raw@[3 * i + 1]
                        == rgb@[i].green && raw@[3 * i + 2] == rgb@[i].blue,
            decreases rgb@.len() - p,
        {
            let c = rgb[p];
            raw.push(c.red);
            raw.push(c.green);
            raw.push(c.blue);
            p = p + 1;
        }
        raw
    }

    /// Decodes to a flat byte buffer, four bytes per pixel.
    fn to_rgba8_raw(&self) -> (r: Vec<u8>)
        requires
            self.wf(),
        ensures
            r@.len() == self.spec_rgba8().len() * 4,
            forall|i: int|
                0 <= i < self.spec_rgba8().len() ==> r@[4 * i] == (#[trigger] self.spec_rgba8()[
                    i
                ]).red && r@[4 * i + 1] == self.spec_rgba8()[i].green && r@[4 * i + 2]
                    == self.spec_rgba8()[i].blue && r@[4 * i + 3] == self.spec_rgba8()[i].alpha,
    {
        let rgba = self.to_rgba8();
        let mut raw: Vec<u8> = Vec::new();
        let mut p: usize = 0;
        while p < rgba.len()
            invariant
                p <= rgba@.len(),
                rgba@ == self.spec_rgba8(),
                raw@.len() == 4 * p,
                forall|i: int|
                    0 <= i < p ==> raw@[4 * i] == (#[trigger] rgba@[i]).red && raw@[4 * i + 1]
                        == rgba@[i].green && raw@[4 * i + 2] == rgba@[i].blue && raw@[4 * i + 3]
                        == rgba@[i].alpha,
            decreases rgba@.len() - p,
        {
            let c = rgba[p];
            raw.push(c.red);
            raw.push(c.green);
            raw.push(c.blue);
            raw.push(c.alpha);
            p = p + 1;
        }
        raw
    }
}

/// A block-compressed image of the first kind: opaque color blocks only.
#[derive(Debug, Clone, PartialEq, Eq)]
pub struct Dxt1 {
    pub data: Vec<ColorBlock>,
    pub width: u16,
    pub height: u16,
}

impl Dxt1 {
    /// The bytes the stored form occupies: eight per block.
    pub open spec fn spec_byte_len(width: u16, height: u16) -> int {
        8 * ((clamp4(width) as int * clamp4(height) as int) / 16)
    }

    /// What the image holds when read from `b` at `pos` for the given
    /// (unclamped) dimensions.
    pub open spec fn loaded_from(self, b: Seq<u8>, pos: int, width: u16, height: u16) -> bool {
        &&& self.width == clamp4(width)
        &&& self.height == clamp4(height)
        &&& self.data@.len() == (clamp4(width) as int * clamp4(height) as int) / 16
        &&& forall|i: int|
            0 <= i < self.data@.len() ==> self.data@[i] == spec_color_block(b, pos + 8 * i)
    }

    /// Reads the image's blocks from `pos`; dimensions below one block
    /// are clamped up to 4x4. On success also hands back the position
    /// just past the stored data.
    pub fn load(src: &[u8], pos: usize, width: u16, height: u16) -> (r: Result<
        (Dxt1, usize),
        VTFError,
    >)
        requires
            width % 4 == 0 || width < 4,
            height % 4 == 0 || height < 4,
        ensures
            match r {
                Ok((img, next)) => pos + Dxt1::spec_byte_len(width, height) <= src@.len()
                    && img.loaded_from(src@, pos as int, width, height) && img.wf() && next == pos
                    + Dxt1::spec_byte_len(width, height),
                Err(e) => e == VTFError::FileSize && pos + Dxt1::spec_byte_len(width, height)
                    > src@.len(),
            },
    {
        let cw: u16 = if width < 4 {
            4
        } else {
            width
        };
        let ch: u16 = if height < 4 {
            4
        } else {
            height
        };
        proof {
            assert((cw as int) * (ch as int) <= 0xffff * 0xffff) by (nonlinear_arith)
                requires
                    cw <= 0xffff,
                    ch <= 0xffff,
            ;
        }
        let pix: usize = (cw as usize) * (ch as usize);
        let nb: usize = pix / 16;
        let len = src.len();
        if pos > len || (nb as u64) * 8 > (len - pos) as u64 {
            return Err(VTFError::FileSize);
        }
        let mut data: Vec<ColorBlock> = Vec::new();
        let mut i: usize = 0;
        while i < nb
            invariant
                i <= nb,
                src@.len() == len,
                pos + 8 * nb <= len,
                data@.len() == i,
                forall|j: int|
                    0 <= j < i ==> data@[j] == spec_color_block(src@, pos + 8 * j),
            decreases nb - i,
        {
            let off = pos + 8 * i;
            let block = ColorBlock {
                c0: read_u16_le(src, off),
                c1: read_u16_le(src, off + 2),
                idx0: src[off + 4],
                idx1: src[off + 5],
                idx2: src[off + 6],
                idx3: src[off + 7],
            };
            data.push(block);
            i = i + 1;
        }
        Ok((Dxt1 { data, width: cw, height: ch }, pos + 8 * nb))
    }
}

impl VTFImage for Dxt1 {
    open spec fn wf(&self) -> bool {
        &&& self.width >= 4
        &&& self.height >= 4
        &&& self.width % 4 == 0
        &&& self.height % 4 == 0
        &&& self.data@.len() == (self.width as int * self.height as int) / 16
    }

    open spec fn spec_width(&self) -> u16 {
        self.width
    }

    open spec fn spec_height(&self) -> u16 {
        self.height
    }

    open spec fn spec_rgb8(&self) -> Seq<Rgb8> {
        let w = self.width as int;
        Seq::new(
            (self.width as int * self.height as int) as nat,
            |p: int|
                dxt1_texel(self.data@[block_at(w, p % w, p / w)], texel_at(p % w, p / w)),
        )
    }

    open spec fn spec_rgba8(&self) -> Seq<Rgba8> {
        Seq::new(
            self.spec_rgb8().len(),
            |p: int| with_alpha(self.spec_rgb8()[p], 255),
        )
    }

    fn to_rgb8(&self) -> (r: Vec<Rgb8>) {
        let w = self.width as usize;
        let h = self.height as usize;
        proof {
            assert((w as int) * (h as int) <= 0xffff * 0xffff) by (nonlinear_arith)
                requires
                    w <= 0xffff,
                    h <= 0xffff,
            ;
        }
        let pix: usize = w * h;
        let mut out: Vec<Rgb8> = Vec::new();
        let mut p: usize = 0;
        while p < pix
            invariant
                self.wf(),
                w == self.width,
                h == self.height,
                pix == w * h,
                p <= pix,
                out@.len() == p,
                forall|q: int| 0 <= q < p ==> out@[q] == self.spec_rgb8()[q],
            decreases pix - p,
        {
            let x = p % w;
            let y = p / w;
            proof {
                vstd::arithmetic::div_mod::lemma_multiply_divide_lt(p as int, w as int, h as int);
                lemma_block_index(w as int, h as int, x as int, y as int);
            }
            let bi = (y / 4) * (w / 4) + x / 4;
            let t = (y % 4) * 4 + (x % 4);
            out.push(texel_color(&self.data[bi], t));
            p = p + 1;
        }
        proof {
            assert(out@ =~= self.spec_rgb8());
        }
        out
    }

    fn to_rgba8(&self) -> (r: Vec<Rgba8>) {
        let rgb = self.to_rgb8();
        let mut out: Vec<Rgba8> = Vec::new();
        let mut p: usize = 0;
        while p < rgb.len()
            invariant
                rgb@ == self.spec_rgb8(),
                p <= rgb@.len(),
                out@.len() == p,
                forall|q: int| 0 <= q < p ==> out@[q] == self.spec_rgba8()[q],
            decreases rgb@.len() - p,
        {
            let c = rgb[p];
            out.push(Rgba8 { red: c.red, green: c.green, blue: c.blue, alpha: 255 });
            p = p + 1;
        }
        proof {
            assert(out@ =~= self.spec_rgba8());
        }
        out
    }

    fn get_width(&self) -> (r: u16) {
        self.width
    }

    fn get_height(&self) -> (r: u16) {
        self.height
    }
}

/// One sixteen-byte block of the explicit-alpha format: eight bytes of
/// four-bit alpha, one nibble per texel, then a color block.
#[derive(Debug, Clone, Copy, PartialEq, Eq, Structural)]
pub struct Dxt3Block {
    pub a0: u8,
    pub a1: u8,
    pub a2: u8,
    pub a3: u8,
    pub a4: u8,
    pub a5: u8,
    pub a6: u8,
    pub a7: u8,
    pub color: ColorBlock,
}

/// A sixteen-byte explicit-alpha block as stored at `off`.
pub open spec fn spec_dxt3_block(b: Seq<u8>, off: int) -> Dxt3Block {
    Dxt3Block {
        a0: b[off],
        a1: b[off + 1],
        a2: b[off + 2],
        a3: b[off + 3],
        a4: b[off + 4],
        a5: b[off + 5],
        a6: b[off + 6],
        a7: b[off + 7],
        color: spec_color_block(b, off + 8),
    }
}

/// The alpha byte covering texels `2k` and `2k + 1`.
pub open spec fn dxt3_alpha_byte(blk: Dxt3Block, k: int) -> u8 {
    if k == 0 {
        blk.a0
    } else if k == 1 {
        blk.a1
    } else if k == 2 {
        blk.a2
    } else if k == 3 {
        blk.a3
    } else if k == 4 {
        blk.a4
    } else if k == 5 {
        blk.a5
    } else if k == 6 {
        blk.a6
    } else {
        blk.a7
    }
}

/// Texel `t`'s alpha: its four-bit nibble scaled to eight bits by the
/// exact factor 17.
pub open spec fn dxt3_alpha(blk: Dxt3Block, t: int) -> u8 {
    let by = dxt3_alpha_byte(blk, t / 2);
    let nib = if t % 2 == 0 {
        by as int % 16
    } else {
        by as int / 16
    };
    (nib * 17) as u8
}

/// The color and alpha the explicit-alpha block assigns to texel `t`.
pub open spec fn dxt3_texel(blk: Dxt3Block, t: int) -> Rgba8 {
    with_alpha(dxt1_texel(blk.color, t), dxt3_alpha(blk, t))
}

/// Decodes one texel of an explicit-alpha block; see [`dxt3_texel`].
fn texel_color3(b: &Dxt3Block, t: usize) -> (r: Rgba8)
    requires
        t < 16,
    ensures
        r == dxt3_texel(*b, t as int),
{
    let c = texel_color(&b.color, t);
    let k = t / 2;
    let by = if k == 0 {
        b.a0
    } else if k == 1 {
        b.a1
    } else if k == 2 {
        b.a2
    } else if k == 3 {
        b.a3
    } else if k == 4 {
        b.a4
    } else if k == 5 {
        b.a5
    } else if k == 6 {
        b.a6
    } else {
        b.a7
    };
    let nib = if t % 2 == 0 {
        by % 16
    } else {
        by / 16
    };
    Rgba8 { red: c.red, green: c.green, blue: c.blue, alpha: nib * 17 }
}

/// A block-compressed image with four explicit alpha bits per texel.
#[derive(Debug, Clone, PartialEq, Eq)]
pub struct Dxt3 {
    pub data: Vec<Dxt3Block>,
    pub width: u16,
    pub height: u16,
}

impl Dxt3 {
    /// The bytes the stored form occupies: sixteen per block.
    pub open spec fn spec_byte_len(width: u16, height: u16) -> int {
        16 * ((clamp4(width) as int * clamp4(height) as int) / 16)
    }

    /// What the image holds when read from `b` at `pos`.
    pub open spec fn loaded_from(self, b: Seq<u8>, pos: int, width: u16, height: u16) -> bool {
        &&& self.width == clamp4(width)
        &&& self.height == clamp4(height)
        &&& self.data@.len() == (clamp4(width) as int * clamp4(height) as int) / 16
        &&& forall|i: int|
            0 <= i < self.data@.len() ==> self.data@[i] == spec_dxt3_block(b, pos + 16 * i)
    }

    /// Reads the image's blocks from `pos`; dimensions below one block
    /// are clamped up to 4x4.
    pub fn load(src: &[u8], pos: usize, width: u16, height: u16) -> (r: Result<
        (Dxt3, usize),
        VTFError,
    >)
        requires
            width % 4 == 0 || width < 4,
            height % 4 == 0 || height < 4,
        ensures
            match r {
                Ok((img, next)) => pos + Dxt3::spec_byte_len(width, height) <= src@.len()
                    && img.loaded_from(src@, pos as int, width, height) && img.wf() && next == pos
                    + Dxt3::spec_byte_len(width, height),
                Err(e) => e == VTFError::FileSize && pos + Dxt3::spec_byte_len(width, height)
                    > src@.len(),
            },
    {
        let cw: u16 = if width < 4 {
            4
        } else {
            width
        };
        let ch: u16 = if height < 4 {
            4
        } else {
            height
        };
        proof {
            assert((cw as int) * (ch as int) <= 0xffff * 0xffff) by (nonlinear_arith)
                requires
                    cw <= 0xffff,
                    ch <= 0xffff,
            ;
        }
        let pix: usize = (cw as usize) * (ch as usize);
        let nb: usize = pix / 16;
        let len = src.len();
        if pos > len || (nb as u64) * 16 > (len - pos) as u64 {
            return Err(VTFError::FileSize);
        }
        let mut data: Vec<Dxt3Block> = Vec::new();
        let mut i: usize = 0;
        while i < nb
            invariant
                i <= nb,
                src@.len() == len,
                pos + 16 * nb <= len,
                data@.len() == i,
                forall|j: int|
                    0 <= j < i ==> data@[j] == spec_dxt3_block(src@, pos + 16 * j),
            decreases nb - i,
        {
            let off = pos + 16 * i;
            let block = Dxt3Block {
                a0: src[off],
                a1: src[off + 1],
                a2: src[off + 2],
                a3: src[off + 3],
                a4: src[off + 4],
                a5: src[off + 5],
                a6: src[off + 6],
                a7: src[off + 7],
                color: ColorBlock {
                    c0: read_u16_le(src, off + 8),
                    c1: read_u16_le(src, off + 10),
                    idx0: src[off + 12],
                    idx1: src[off + 13],
                    idx2: src[off + 14],
                    idx3: src[off + 15],
                },
            };
            data.push(block);
            i = i + 1;
        }
        Ok((Dxt3 { data, width: cw, height: ch }, pos + 16 * nb))
    }
}

impl VTFImage for Dxt3 {
    open spec fn wf(&self) -> bool {
        &&& self.width >= 4
        &&& self.height >= 4
        &&& self.width % 4 == 0
        &&& self.height % 4 == 0
        &&& self.data@.len() == (self.width as int * self.height as int) / 16
    }

    open spec fn spec_width(&self) -> u16 {
        self.width
    }

    open spec fn spec_height(&self) -> u16 {
        self.height
    }

    open spec fn spec_rgba8(&self) -> Seq<Rgba8> {
        let w = self.width as int;
        Seq::new(
            (self.width as int * self.height as int) as nat,
            |p: int|
                dxt3_texel(self.data@[block_at(w, p % w, p / w)], texel_at(p % w, p / w)),
        )
    }

    open spec fn spec_rgb8(&self) -> Seq<Rgb8> {
        Seq::new(self.spec_rgba8().len(), |p: int| without_alpha(self.spec_rgba8()[p]))
    }

    fn to_rgba8(&self) -> (r: Vec<Rgba8>) {
        let w = self.width as usize;
        let h = self.height as usize;
        proof {
            assert((w as int) * (h as int) <= 0xffff * 0xffff) by (nonlinear_arith)
                requires
                    w <= 0xffff,
                    h <= 0xffff,
            ;
        }
        let pix: usize = w * h;
        let mut out: Vec<Rgba8> = Vec::new();
        let mut p: usize = 0;
        while p < pix
            invariant
                self.wf(),
                w == self.width,
                h == self.height,
                pix == w * h,
                p <= pix,
                out@.len() == p,
                forall|q: int| 0 <= q < p ==> out@[q] == self.spec_rgba8()[q],
            decreases pix - p,
        {
            let x = p % w;
            let y = p / w;
            proof {
                vstd::arithmetic::div_mod::lemma_multiply_divide_lt(p as int, w as int, h as int);
                lemma_block_index(w as int, h as int, x as int, y as int);
            }
            let bi = (y / 4) * (w / 4) + x / 4;
            let t = (y % 4) * 4 + (x % 4);
            out.push(texel_color3(&self.data[bi], t));
            p = p + 1;
        }
        proof {
            assert(out@ =~= self.spec_rgba8());
        }
        out
    }

    fn to_rgb8(&self) -> (r: Vec<Rgb8>) {
        let rgba = self.to_rgba8();
        let mut out: Vec<Rgb8> = Vec::new();
        let mut p: usize = 0;
        while p < rgba.len()
            invariant
                rgba@ == self.spec_rgba8(),
                p <= rgba@.len(),
                out@.len() == p,
                forall|q: int| 0 <= q < p ==> out@[q] == self.spec_rgb8()[q],
            decreases rgba@.len() - p,
        {
            let c = rgba[p];
            out.push(Rgb8 { red: c.red, green: c.green, blue: c.blue });
            p = p + 1;
        }
        proof {
            assert(out@ =~= self.spec_rgb8());
        }
        out
    }

    fn get_width(&self) -> (r: u16) {
        self.width
    }

    fn get_height(&self) -> (r: u16) {
        self.height
    }
}

/// One sixteen-byte block of the interpolated-alpha format: two alpha
/// endpoints, six bytes of three-bit alpha indices, then a color block.
#[derive(Debug, Clone, Copy, PartialEq, Eq, Structural)]
pub struct Dxt5Block {
    pub a0: u8,
    pub a1: u8,
    pub ai0: u8,
    pub ai1: u8,
    pub ai2: u8,
    pub ai3: u8,
    pub ai4: u8,
    pub ai5: u8,
    pub color: ColorBlock,
}

/// A sixteen-byte interpolated-alpha block as stored at `off`.
pub open spec fn spec_dxt5_block(b: Seq<u8>, off: int) -> Dxt5Block {
    Dxt5Block {
        a0: b[off],
        a1: b[off + 1],
        ai0: b[off + 2],
        ai1: b[off + 3],
        ai2: b[off + 4],
        ai3: b[off + 5],
        ai4: b[off + 6],
        ai5: b[off + 7],
        color: spec_color_block(b, off + 8),
    }
}

/// The 48 bits of packed three-bit alpha indices, read little-endian.
pub open spec fn dxt5_alpha_bits(blk: Dxt5Block) -> int {
    blk.ai0 + 0x100 * blk.ai1 + 0x10000 * blk.ai2 + 0x1000000 * blk.ai3 + 0x100000000 * blk.ai4
        + 0x10000000000 * blk.ai5
}

/// The divisor that brings texel `t`'s three alpha-index bits to the
/// bottom of the 48-bit word: the `t`-th power of eight.
pub open spec fn dxt5_alpha_divisor(t: int) -> u64 {
    if t == 0 {
        1u64
    } else if t == 1 {
        8u64
    } else if t == 2 {
        64u64
    } else if t == 3 {
        512u64
    } else if t == 4 {
        4096u64
    } else if t == 5 {
        32768u64
    } else if t == 6 {
        262144u64
    } else if t == 7 {
        2097152u64
    } else if t == 8 {
        16777216u64
    } else if t == 9 {
        134217728u64
    } else if t == 10 {
        1073741824u64
    } else if t == 11 {
        8589934592u64
    } else if t == 12 {
        68719476736u64
    } else if t == 13 {
        549755813888u64
    } else if t == 14 {
        4398046511104u64
    } else {
        35184372088832u64
    }
}

/// The three-bit alpha-table index of texel `t`.
pub open spec fn dxt5_alpha_index(blk: Dxt5Block, t: int) -> int {
    (dxt5_alpha_bits(blk) / dxt5_alpha_divisor(t) as int) % 8
}

/// The color and alpha the interpolated-alpha block assigns to texel
/// `t`.
pub open spec fn dxt5_texel(blk: Dxt5Block, t: int) -> Rgba8 {
    with_alpha(
        dxt1_texel(blk.color, t),
        dxt5_alpha_table(blk.a0, blk.a1, dxt5_alpha_index(blk, t)),
    )
}

/// Looks an index up in the alpha table; see [`dxt5_alpha_table`].
fn dxt5_alpha_lookup(a0: u8, a1: u8, j: u8) -> (r: u8)
    requires
        j < 8,
    ensures
        r == dxt5_alpha_table(a0, a1, j as int),
{
    if j == 0 {
        a0
    } else if j == 1 {
        a1
    } else if a0 > a1 {
        interp_alpha_8bit(a0, a1, j - 2)
    } else if j <= 5 {
        interp_alpha_6bit(a0, a1, j - 2)
    } else if j == 6 {
        0
    } else {
        255
    }
}

/// Decodes one texel of an interpolated-alpha block; see
/// [`dxt5_texel`].
fn texel_color5(b: &Dxt5Block, t: usize) -> (r: Rgba8)
    requires
        t < 16,
    ensures
        r == dxt5_texel(*b, t as int),
{
    let c = texel_color(&b.color, t);
    let bits: u64 = b.ai0 as u64 + 0x100 * (b.ai1 as u64) + 0x10000 * (b.ai2 as u64) + 0x1000000
        * (b.ai3 as u64) + 0x100000000 * (b.ai4 as u64) + 0x10000000000 * (b.ai5 as u64);
    let d: u64 = if t == 0 {
        1
    } else if t == 1 {
        8
    } else if t == 2 {
        64
    } else if t == 3 {
        512
    } else if t == 4 {
        4096
    } else if t == 5 {
        32768
    } else if t == 6 {
        262144
    } else if t == 7 {
        2097152
    } else if t == 8 {
        16777216
    } else if t == 9 {
        134217728
    } else if t == 10 {
        1073741824
    } else if t == 11 {
        8589934592
    } else if t == 12 {
        68719476736
    } else if t == 13 {
        549755813888
    } else if t == 14 {
        4398046511104
    } else {
        35184372088832
    };
    let j = ((bits / d) % 8) as u8;
    let alpha = dxt5_alpha_lookup(b.a0, b.a1, j);
    Rgba8 { red: c.red, green: c.green, blue: c.blue, alpha }
}

/// A block-compressed image with interpolated three-bit alpha.
#[derive(Debug, Clone, PartialEq, Eq)]
pub struct Dxt5 {
    pub data: Vec<Dxt5Block>,
    pub width: u16,
    pub height: u16,
}

impl Dxt5 {
    /// The bytes the stored form occupies: sixteen per block.
    pub open spec fn spec_byte_len(width: u16, height: u16) -> int {
        16 * ((clamp4(width) as int * clamp4(height) as int) / 16)
    }

    /// What the image holds when read from `b` at `pos`.
    pub open spec fn loaded_from(self, b: Seq<u8>, pos: int, width: u16, height: u16) -> bool {
        &&& self.width == clamp4(width)
        &&& self.height == clamp4(height)
        &&& self.data@.len() == (clamp4(width) as int * clamp4(height) as int) / 16
        &&& forall|i: int|
            0 <= i < self.data@.len() ==> self.data@[i] == spec_dxt5_block(b, pos + 16 * i)
    }

    /// Reads the image's blocks from `pos`; dimensions below one block
    /// are clamped up to 4x4.
    pub fn load(src: &[u8], pos: usize, width: u16, height: u16) -> (r: Result<
        (Dxt5, usize),
        VTFError,
    >)
        requires
            width % 4 == 0 || width < 4,
            height % 4 == 0 || height < 4,
        ensures
            match r {
                Ok((img, next)) => pos + Dxt5::spec_byte_len(width, height) <= src@.len()
                    && img.loaded_from(src@, pos as int, width, height) && img.wf() && next == pos
                    + Dxt5::spec_byte_len(width, height),
                Err(e) => e == VTFError::FileSize && pos + Dxt5::spec_byte_len(width, height)
                    > src@.len(),
            },
    {
        let cw: u16 = if width < 4 {
            4
        } else {
            width
        };
        let ch: u16 = if height < 4 {
            4
        } else {
            height
        };
        proof {
            assert((cw as int) * (ch as int) <= 0xffff * 0xffff) by (nonlinear_arith)
                requires
                    cw <= 0xffff,
                    ch <= 0xffff,
            ;
        }
        let pix: usize = (cw as usize) * (ch as usize);
        let nb: usize = pix / 16;
        let len = src.len();
        if pos > len || (nb as u64) * 16 > (len - pos) as u64 {
            return Err(VTFError::FileSize);
        }
        let mut data: Vec<Dxt5Block> = Vec::new();
        let mut i: usize = 0;
        while i < nb
            invariant
                i <= nb,
                src@.len() == len,
                pos + 16 * nb <= len,
                data@.len() == i,
                forall|j: int|
                    0 <= j < i ==> data@[j] == spec_dxt5_block(src@, pos + 16 * j),
            decreases nb - i,
        {
            let off = pos + 16 * i;
            let block = Dxt5Block {
                a0: src[off],
                a1: src[off + 1],
                ai0: src[off + 2],
                ai1: src[off + 3],
                ai2: src[off + 4],
                ai3: src[off + 5],
                ai4: src[off + 6],
                ai5: src[off + 7],
                color: ColorBlock {
                    c0: read_u16_le(src, off + 8),
                    c1: read_u16_le(src, off + 10),
                    idx0: src[off + 12],
                    idx1: src[off + 13],
                    idx2: src[off + 14],
                    idx3: src[off + 15],
                },
            };
            data.push(block);
            i = i + 1;
        }
        Ok((Dxt5 { data, width: cw, height: ch }, pos + 16 * nb))
    }
}

impl VTFImage for Dxt5 {
    open spec fn wf(&self) -> bool {
        &&& self.width >= 4
        &&& self.height >= 4
        &&& self.width % 4 == 0
        &&& self.height % 4 == 0
        &&& self.data@.len() == (self.width as int * self.height as int) / 16
    }

    open spec fn spec_width(&self) -> u16 {
        self.width
    }

    open spec fn spec_height(&self) -> u16 {
        self.height
    }

    open spec fn spec_rgba8(&self) -> Seq<Rgba8> {
        let w = self.width as int;
        Seq::new(
            (self.width as int * self.height as int) as nat,
            |p: int|
                dxt5_texel(self.data@[block_at(w, p % w, p / w)], texel_at(p % w, p / w)),
        )
    }

    open spec fn spec_rgb8(&self) -> Seq<Rgb8> {
        Seq::new(self.spec_rgba8().len(), |p: int| without_alpha(self.spec_rgba8()[p]))
    }

    fn to_rgba8(&self) -> (r: Vec<Rgba8>) {
        let w = self.width as usize;
        let h = self.height as usize;
        proof {
            assert((w as int) * (h as int) <= 0xffff * 0xffff) by (nonlinear_arith)
                requires
                    w <= 0xffff,
                    h <= 0xffff,
            ;
        }
        let pix: usize = w * h;
        let mut out: Vec<Rgba8> = Vec::new();
        let mut p: usize = 0;
        while p < pix
            invariant
                self.wf(),
                w == self.width,
                h == self.height,
                pix == w * h,
                p <= pix,
                out@.len() == p,
                forall|q: int| 0 <= q < p ==> out@[q] == self.spec_rgba8()[q],
            decreases pix - p,
        {
            let x = p % w;
            let y = p / w;
            proof {
                vstd::arithmetic::div_mod::lemma_multiply_divide_lt(p as int, w as int, h as int);
                lemma_block_index(w as int, h as int, x as int, y as int);
            }
            let bi = (y / 4) * (w / 4) + x / 4;
            let t = (y % 4) * 4 + (x % 4);
            out.push(texel_color5(&self.data[bi], t));
            p = p + 1;
        }
        proof {
            assert(out@ =~= self.spec_rgba8());
        }
        out
    }

    fn to_rgb8(&self) -> (r: Vec<Rgb8>) {
        let rgba = self.to_rgba8();
        let mut out: Vec<Rgb8> = Vec::new();
        let mut p: usize = 0;
        while p < rgba.len()
            invariant
                rgba@ == self.spec_rgba8(),
                p <= rgba@.len(),
                out@.len() == p,
                forall|q: int| 0 <= q < p ==> out@[q] == self.spec_rgb8()[q],
            decreases rgba@.len() - p,
        {
            let c = rgba[p];
            out.push(Rgb8 { red: c.red, green: c.green, blue: c.blue });
            p = p + 1;
        }
        proof {
            assert(out@ =~= self.spec_rgb8());
        }
        out
    }

    fn get_width(&self) -> (r: u16) {
        self.width
    }

    fn get_height(&self) -> (r: u16) {
        self.height
    }
}

/// A three-byte blue-green-red pixel as stored at `off`.
pub open spec fn spec_bgr8_at(b: Seq<u8>, off: int) -> Bgr8 {
    Bgr8 { blue: b[off], green: b[off + 1], red: b[off + 2] }
}

/// A four-byte blue-green-red-alpha pixel as stored at `off`.
pub open spec fn spec_bgra8_at(b: Seq<u8>, off: int) -> Bgra8 {
    Bgra8 { blue: b[off], green: b[off + 1], red: b[off + 2], alpha: b[off + 3] }
}

/// An uncompressed image of three-byte blue-green-red pixels.
#[derive(Debug, Clone, PartialEq, Eq)]
pub struct Bgr8Image {
    pub data: Vec<Bgr8>,
    pub width: u16,
    pub height: u16,
}

impl Bgr8Image {
    /// The bytes the stored form occupies: three per pixel.
    pub open spec fn spec_byte_len(width: u16, height: u16) -> int {
        3 * (width as int * height as int)
    }

    /// What the image holds when read from `b` at `pos`.
    pub open spec fn loaded_from(self, b: Seq<u8>, pos: int, width: u16, height: u16) -> bool {
        &&& self.width == width
        &&& self.height == height
        &&& self.data@.len() == width as int * height as int
        &&& forall|i: int|
            0 <= i < self.data@.len() ==> self.data@[i] == spec_bgr8_at(b, pos + 3 * i)
    }

    /// Reads the image's pixels from `pos`, in raster order.
    pub fn load(src: &[u8], pos: usize, width: u16, height: u16) -> (r: Result<
        (Bgr8Image, usize),
        VTFError,
    >)
        ensures
            match r {
                Ok((img, next)) => pos + Bgr8Image::spec_byte_len(width, height) <= src@.len()
                    && img.loaded_from(src@, pos as int, width, height) && img.wf() && next == pos
                    + Bgr8Image::spec_byte_len(width, height),
                Err(e) => e == VTFError::FileSize && pos + Bgr8Image::spec_byte_len(width, height)
                    > src@.len(),
            },
    {
        proof {
            assert((width as int) * (height as int) <= 0xffff * 0xffff) by (nonlinear_arith)
                requires
                    width <= 0xffff,
                    height <= 0xffff,
            ;
        }
        let pix: usize = (width as usize) * (height as usize);
        let len = src.len();
        if pos > len || (pix as u64) * 3 > (len - pos) as u64 {
            return Err(VTFError::FileSize);
        }
        let mut data: Vec<Bgr8> = Vec::new();
        let mut i: usize = 0;
        while i < pix
            invariant
                i <= pix,
                src@.len() == len,
                pos + 3 * pix <= len,
                data@.len() == i,
                forall|j: int| 0 <= j < i ==> data@[j] == spec_bgr8_at(src@, pos + 3 * j),
            decreases pix - i,
        {
            let off = pos + 3 * i;
            data.push(Bgr8 { blue: src[off], green: src[off + 1], red: src[off + 2] });
            i = i + 1;
        }
        Ok((Bgr8Image { data, width, height }, pos + 3 * pix))
    }
}

impl VTFImage for Bgr8Image {
    open spec fn wf(&self) -> bool {
        self.data@.len() == self.width as int * self.height as int
    }

    open spec fn spec_width(&self) -> u16 {
        self.width
    }

    open spec fn spec_height(&self) -> u16 {
        self.height
    }

    open spec fn spec_rgb8(&self) -> Seq<Rgb8> {
        Seq::new(
            self.data@.len(),
            |p: int|
                Rgb8 {
                    red: self.data@[p].red,
                    green: self.data@[p].green,
                    blue: self.data@[p].blue,
                },
        )
    }

    open spec fn spec_rgba8(&self) -> Seq<Rgba8> {
        Seq::new(self.spec_rgb8().len(), |p: int| with_alpha(self.spec_rgb8()[p], 255))
    }

    fn to_rgb8(&self) -> (r: Vec<Rgb8>) {
        let mut out: Vec<Rgb8> = Vec::new();
        let mut p: usize = 0;
        while p < self.data.len()
            invariant
                p <= self.data@.len(),
                out@.len() == p,
                forall|q: int| 0 <= q < p ==> out@[q] == self.spec_rgb8()[q],
            decreases self.data@.len() - p,
        {
            let c = self.data[p];
            out.push(Rgb8 { red: c.red, green: c.green, blue: c.blue });
            p = p + 1;
        }
        proof {
            assert(out@ =~= self.spec_rgb8());
        }
        out
    }

    fn to_rgba8(&self) -> (r: Vec<Rgba8>) {
        let mut out: Vec<Rgba8> = Vec::new();
        let mut p: usize = 0;
        while p < self.data.len()
            invariant
                p <= self.data@.len(),
                out@.len() == p,
                forall|q: int| 0 <= q < p ==> out@[q] == self.spec_rgba8()[q],
            decreases self.data@.len() - p,
        {
            let c = self.data[p];
            out.push(Rgba8 { red: c.red, green: c.green, blue: c.blue, alpha: 255 });
            p = p + 1;
        }
        proof {
            assert(out@ =~= self.spec_rgba8());
        }
        out
    }

    fn get_width(&self) -> (r: u16) {
        self.width
    }

    fn get_height(&self) -> (r: u16) {
        self.height
    }
}

/// An uncompressed image of four-byte blue-green-red-alpha pixels.
#[derive(Debug, Clone, PartialEq, Eq)]
pub struct Bgra8Image {
    pub data: Vec<Bgra8>,
    pub width: u16,
    pub height: u16,
}

impl Bgra8Image {
    /// The bytes the stored form occupies: four per pixel.
    pub open spec fn spec_byte_len(width: u16, height: u16) -> int {
        4 * (width as int * height as int)
    }

    /// What the image holds when read from `b` at `pos`.
    pub open spec fn loaded_from(self, b: Seq<u8>, pos: int, width: u16, height: u16) -> bool {
        &&& self.width == width
        &&& self.height == height
        &&& self.data@.len() == width as int * height as int
        &&& forall|i: int|
            0 <= i < self.data@.len() ==> self.data@[i] == spec_bgra8_at(b, pos + 4 * i)
    }

    /// Reads the image's pixels from `pos`, in raster order.
    pub fn load(src: &[u8], pos: usize, width: u16, height: u16) -> (r: Result<
        (Bgra8Image, usize),
        VTFError,
    >)
        ensures
            match r {
                Ok((img, next)) => pos + Bgra8Image::spec_byte_len(width, height) <= src@.len()
                    && img.loaded_from(src@, pos as int, width, height) && img.wf() && next == pos
                    + Bgra8Image::spec_byte_len(width, height),
                Err(e) => e == VTFError::FileSize && pos + Bgra8Image::spec_byte_len(
                    width,
                    height,
                ) > src@.len(),
            },
    {
        proof {
            assert((width as int) * (height as int) <= 0xffff * 0xffff) by (nonlinear_arith)
                requires
                    width <= 0xffff,
                    height <= 0xffff,
            ;
        }
        let pix: usize = (width as usize) * (height as usize);
        let len = src.len();
        if pos > len || (pix as u64) * 4 > (len - pos) as u64 {
            return Err(VTFError::FileSize);
        }
        let mut data: Vec<Bgra8> = Vec::new();
        let mut i: usize = 0;
        while i < pix
            invariant
                i <= pix,
                src@.len() == len,
                pos + 4 * pix <= len,
                data@.len() == i,
                forall|j: int| 0 <= j < i ==> data@[j] == spec_bgra8_at(src@, pos + 4 * j),
            decreases pix - i,
        {
            let off = pos + 4 * i;
            data.push(
                Bgra8 {
                    blue: src[off],
                    green: src[off + 1],
                    red: src[off + 2],
                    alpha: src[off + 3],
                },
            );
            i = i + 1;
        }
        Ok((Bgra8Image { data, width, height }, pos + 4 * pix))
    }
}

impl VTFImage for Bgra8Image {
    open spec fn wf(&self) -> bool {
        self.data@.len() == self.width as int * self.height as int
    }

    open spec fn spec_width(&self) -> u16 {
        self.width
    }

    open spec fn spec_height(&self) -> u16 {
        self.height
    }

    open spec fn spec_rgb8(&self) -> Seq<Rgb8> {
        Seq::new(
            self.data@.len(),
            |p: int|
                Rgb8 {
                    red: self.data@[p].red,
                    green: self.data@[p].green,
                    blue: self.data@[p].blue,
                },
        )
    }

    open spec fn spec_rgba8(&self) -> Seq<Rgba8> {
        Seq::new(
            self.data@.len(),
            |p: int|
                Rgba8 {
                    red: self.data@[p].red,
                    green: self.data@[p].green,
                    blue: self.data@[p].blue,
                    alpha: self.data@[p].alpha,
                },
        )
    }

    fn to_rgb8(&self) -> (r: Vec<Rgb8>) {
        let mut out: Vec<Rgb8> = Vec::new();
        let mut p: usize = 0;
        while p < self.data.len()
            invariant
                p <= self.data@.len(),
                out@.len() == p,
                forall|q: int| 0 <= q < p ==> out@[q] == self.spec_rgb8()[q],
            decreases self.data@.len() - p,
        {
            let c = self.data[p];
            out.push(Rgb8 { red: c.red, green: c.green, blue: c.blue });
            p = p + 1;
        }
        proof {
            assert(out@ =~= self.spec_rgb8());
        }
        out
    }

    fn to_rgba8(&self) -> (r: Vec<Rgba8>) {
        let mut out: Vec<Rgba8> = Vec::new();
        let mut p: usize = 0;
        while p < self.data.len()
            invariant
                p <= self.data@.len(),
                out@.len() == p,
                forall|q: int| 0 <= q < p ==> out@[q] == self.spec_rgba8()[q],
            decreases self.data@.len() - p,
        {
            let c = self.data[p];
            out.push(Rgba8 { red: c.red, green: c.green, blue: c.blue, alpha: c.alpha });
            p = p + 1;
        }
        proof {
            assert(out@ =~= self.spec_rgba8());
        }
        out
    }

    fn get_width(&self) -> (r: u16) {
        self.width
    }

    fn get_height(&self) -> (r: u16) {
        self.height
    }
}

/// A decoded image of any of the supported pixel formats.
#[derive(Debug, Clone, PartialEq, Eq)]
pub enum VTFImageWrapper {
    DXT1(Dxt1),
    DXT3(Dxt3),
    DXT5(Dxt5),
    BGR888(Bgr8Image),
    BGRA8888(Bgra8Image),
}

/// True for the pixel formats the decoder fully supports.
pub open spec fn spec_format_supported(f: VTFImageFormat) -> bool {
    ||| f is IMAGE_FORMAT_DXT1
    ||| f is IMAGE_FORMAT_DXT3
    ||| f is IMAGE_FORMAT_DXT5
    ||| f is IMAGE_FORMAT_BGR888
    ||| f is IMAGE_FORMAT_BGRA8888
}

/// Decides whether a pixel format is in the fully supported subset.
pub fn format_supported(f: VTFImageFormat) -> (b: bool)
    ensures
        b == spec_format_supported(f),
{
    match f {
        VTFImageFormat::IMAGE_FORMAT_DXT1 => true,
        VTFImageFormat::IMAGE_FORMAT_DXT3 => true,
        VTFImageFormat::IMAGE_FORMAT_DXT5 => true,
        VTFImageFormat::IMAGE_FORMAT_BGR888 => true,
        VTFImageFormat::IMAGE_FORMAT_BGRA8888 => true,
        _ => false,
    }
}

/// True for the block-compressed formats, whose stored tiles are 4x4.
pub open spec fn spec_format_is_block(f: VTFImageFormat) -> bool {
    f is IMAGE_FORMAT_DXT1 || f is IMAGE_FORMAT_DXT3 || f is IMAGE_FORMAT_DXT5
}

/// The dimensions a block format can store: each either below one block
/// or a whole number of blocks.
pub open spec fn spec_dims_ok(f: VTFImageFormat, w: u16, h: u16) -> bool {
    spec_format_is_block(f) ==> ((w % 4 == 0 || w < 4) && (h % 4 == 0 || h < 4))
}

/// The bytes an image of the given format and dimensions occupies.
pub open spec fn spec_format_byte_len(f: VTFImageFormat, w: u16, h: u16) -> int {
    match f {
        VTFImageFormat::IMAGE_FORMAT_DXT1 => Dxt1::spec_byte_len(w, h),
        VTFImageFormat::IMAGE_FORMAT_DXT3 => Dxt3::spec_byte_len(w, h),
        VTFImageFormat::IMAGE_FORMAT_DXT5 => Dxt5::spec_byte_len(w, h),
        VTFImageFormat::IMAGE_FORMAT_BGR888 => Bgr8Image::spec_byte_len(w, h),
        VTFImageFormat::IMAGE_FORMAT_BGRA8888 => Bgra8Image::spec_byte_len(w, h),
        _ => 0,
    }
}

/// What the wrapped image holds when read from `b` at `pos` in the given
/// format: the variant matches the format and the payload was read as
/// that format reads it.
pub open spec fn wrapper_loaded_from(
    img: VTFImageWrapper,
    b: Seq<u8>,
    pos: int,
    w: u16,
    h: u16,
    f: VTFImageFormat,
) -> bool {
    match img {
        VTFImageWrapper::DXT1(i) => f is IMAGE_FORMAT_DXT1 && i.loaded_from(b, pos, w, h),
        VTFImageWrapper::DXT3(i) => f is IMAGE_FORMAT_DXT3 && i.loaded_from(b, pos, w, h),
        VTFImageWrapper::DXT5(i) => f is IMAGE_FORMAT_DXT5 && i.loaded_from(b, pos, w, h),
        VTFImageWrapper::BGR888(i) => f is IMAGE_FORMAT_BGR888 && i.loaded_from(b, pos, w, h),
        VTFImageWrapper::BGRA8888(i) => f is IMAGE_FORMAT_BGRA8888 && i.loaded_from(b, pos, w, h),
    }
}

impl VTFImageWrapper {
    /// Reads one image of the given format from `pos`. Formats outside
    /// the supported subset are recognized but rejected; a buffer too
    /// short for the image is rejected before any pixel is produced.
    pub fn load(src: &[u8], pos: usize, width: u16, height: u16, format: VTFImageFormat) -> (r:
        Result<(VTFImageWrapper, usize), VTFError>)
        requires
            spec_dims_ok(format, width, height),
        ensures
            match r {
                Ok((img, next)) => spec_format_supported(format) && pos + spec_format_byte_len(
                    format,
                    width,
                    height,
                ) <= src@.len() && img.wf() && wrapper_loaded_from(
                    img,
                    src@,
                    pos as int,
                    width,
                    height,
                    format,
                ) && next == pos + spec_format_byte_len(format, width, height),
                Err(VTFError::HeaderImageFormat) => !spec_format_supported(format),
                Err(VTFError::FileSize) => spec_format_supported(format) && pos
                    + spec_format_byte_len(format, width, height) > src@.len(),
                Err(_) => false,
            },
    {
        match format {
            VTFImageFormat::IMAGE_FORMAT_DXT1 => match Dxt1::load(src, pos, width, height) {
                Ok((img, next)) => Ok((VTFImageWrapper::DXT1(img), next)),
                Err(e) => Err(e),
            },
            VTFImageFormat::IMAGE_FORMAT_DXT3 => match Dxt3::load(src, pos, width, height) {
                Ok((img, next)) => Ok((VTFImageWrapper::DXT3(img), next)),
                Err(e) => Err(e),
            },
            VTFImageFormat::IMAGE_FORMAT_DXT5 => match Dxt5::load(src, pos, width, height) {
                Ok((img, next)) => Ok((VTFImageWrapper::DXT5(img), next)),
                Err(e) => Err(e),
            },
            VTFImageFormat::IMAGE_FORMAT_BGR888 => match Bgr8Image::load(src, pos, width, height) {
                Ok((img, next)) => Ok((VTFImageWrapper::BGR888(img), next)),
                Err(e) => Err(e),
            },
            VTFImageFormat::IMAGE_FORMAT_BGRA8888 => match Bgra8Image::load(
                src,
                pos,
                width,
                height,
            ) {
                Ok((img, next)) => Ok((VTFImageWrapper::BGRA8888(img), next)),
                Err(e) => Err(e),
            },
            _ => Err(VTFError::HeaderImageFormat),
        }
    }
}

impl VTFImage for VTFImageWrapper {
    open spec fn wf(&self) -> bool {
        match self {
            VTFImageWrapper::DXT1(i) => i.wf(),
            VTFImageWrapper::DXT3(i) => i.wf(),
            VTFImageWrapper::DXT5(i) => i.wf(),
            VTFImageWrapper::BGR888(i) => i.wf(),
            VTFImageWrapper::BGRA8888(i) => i.wf(),
        }
    }

    open spec fn spec_width(&self) -> u16 {
        match self {
            VTFImageWrapper::DXT1(i) => i.spec_width(),
            VTFImageWrapper::DXT3(i) => i.spec_width(),
            VTFImageWrapper::DXT5(i) => i.spec_width(),
            VTFImageWrapper::BGR888(i) => i.spec_width(),
            VTFImageWrapper::BGRA8888(i) => i.spec_width(),
        }
    }

    open spec fn spec_height(&self) -> u16 {
        match self {
            VTFImageWrapper::DXT1(i) => i.spec_height(),
            VTFImageWrapper::DXT3(i) => i.spec_height(),
            VTFImageWrapper::DXT5(i) => i.spec_height(),
            VTFImageWrapper::BGR888(i) => i.spec_height(),
            VTFImageWrapper::BGRA8888(i) => i.spec_height(),
        }
    }

    open spec fn spec_rgb8(&self) -> Seq<Rgb8> {
        match self {
            VTFImageWrapper::DXT1(i) => i.spec_rgb8(),
            VTFImageWrapper::DXT3(i) => i.spec_rgb8(),
            VTFImageWrapper::DXT5(i) => i.spec_rgb8(),
            VTFImageWrapper::BGR888(i) => i.spec_rgb8(),
            VTFImageWrapper::BGRA8888(i) => i.spec_rgb8(),
        }
    }

    open spec fn spec_rgba8(&self) -> Seq<Rgba8> {
        match self {
            VTFImageWrapper::DXT1(i) => i.spec_rgba8(),
            VTFImageWrapper::DXT3(i) => i.spec_rgba8(),
            VTFImageWrapper::DXT5(i) => i.spec_rgba8(),
            VTFImageWrapper::BGR888(i) => i.spec_rgba8(),
            VTFImageWrapper::BGRA8888(i) => i.spec_rgba8(),
        }
    }

    fn to_rgb8(&self) -> (r: Vec<Rgb8>) {
        match self {
            VTFImageWrapper::DXT1(i) => i.to_rgb8(),
            VTFImageWrapper::DXT3(i) => i.to_rgb8(),
            VTFImageWrapper::DXT5(i) => i.to_rgb8(),
            VTFImageWrapper::BGR888(i) => i.to_rgb8(),
            VTFImageWrapper::BGRA8888(i) => i.to_rgb8(),
        }
    }

    fn to_rgba8(&self) -> (r: Vec<Rgba8>) {
        match self {
            VTFImageWrapper::DXT1(i) => i.to_rgba8(),
            VTFImageWrapper::DXT3(i) => i.to_rgba8(),
            VTFImageWrapper::DXT5(i) => i.to_rgba8(),
            VTFImageWrapper::BGR888(i) => i.to_rgba8(),
            VTFImageWrapper::BGRA8888(i) => i.to_rgba8(),
        }
    }

    fn get_width(&self) -> (r: u16) {
        match self {
            VTFImageWrapper::DXT1(i) => i.get_width(),
            VTFImageWrapper::DXT3(i) => i.get_width(),
            VTFImageWrapper::DXT5(i) => i.get_width(),
            VTFImageWrapper::BGR888(i) => i.get_width(),
            VTFImageWrapper::BGRA8888(i) => i.get_width(),
        }
    }

    fn get_height(&self) -> (r: u16) {
        match self {
            VTFImageWrapper::DXT1(i) => i.get_height(),
            VTFImageWrapper::DXT3(i) => i.get_height(),
            VTFImageWrapper::DXT5(i) => i.get_height(),
            VTFImageWrapper::BGR888(i) => i.get_height(),
            VTFImageWrapper::BGRA8888(i) => i.get_height(),
        }
    }
}

} // verus!
