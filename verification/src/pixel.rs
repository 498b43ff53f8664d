//! Pixels and rasters.

use vstd::prelude::*;
use vstd::arithmetic::div_mod::lemma_fundamental_div_mod_converse;
use vstd::arithmetic::mul::lemma_mul_inequality;

verus! {

/// One pixel: red, green, blue and alpha, eight bits each. Alpha 0 is full
/// transparency.
#[derive(Clone, Copy, Debug, PartialEq, Eq, Structural)]
pub struct Rgba {
    pub r: u8,
    pub g: u8,
    pub b: u8,
    pub a: u8,
}

impl Rgba {
    /// The fully transparent colour that every palette reserves.
    pub open spec fn transparent() -> Rgba {
        Rgba { r: 0, g: 0, b: 0, a: 0 }
    }

    pub fn new(r: u8, g: u8, b: u8, a: u8) -> (p: Rgba)
        ensures
            p == (Rgba { r, g, b, a }),
    {
        Rgba { r, g, b, a }
    }
}

/// A raster of `width` by `height` pixels stored row by row, each row
/// `stride` entries apart. Entries past `width` in a row are padding.
#[derive(Clone, Debug)]
pub struct Image {
    pub width: usize,
    pub height: usize,
    pub stride: usize,
    pub pixels: Vec<Rgba>,
}

/// Entries a buffer must hold for `height` rows of `width` pixels that lie
/// `stride` apart. The last row needs no padding.
pub open spec fn min_len(width: int, height: int, stride: int) -> int {
    stride * (height - 1) + width
}

/// Whether a buffer of `len` entries holds an image of the given width,
/// height and stride.
pub fn holds_image(len: usize, width: usize, height: usize, stride: usize) -> (ok: bool)
    ensures
        ok == (0 < width <= stride && 0 < height && width <= u32::MAX && height <= u32::MAX
            && min_len(width as int, height as int, stride as int) <= len),
{
    if width == 0 || height == 0 || stride < width {
        return false;
    }
    if width > 0xFFFF_FFFF || height > 0xFFFF_FFFF {
        return false;
    }
    if len < width {
        proof {
            assert(stride * (height - 1) >= 0) by (nonlinear_arith)
                requires
                    stride >= 0,
                    height >= 1,
            ;
        }
        return false;
    }
    // rows that fit before the last one
    let room: usize = (len - width) / stride;
    proof {
        let s = stride as int;
        let h = height as int;
        let q = (len - width) as int / s;
        vstd::arithmetic::div_mod::lemma_fundamental_div_mod((len - width) as int, s);
        vstd::arithmetic::div_mod::lemma_mod_bound((len - width) as int, s);
        if h - 1 <= q {
            assert(s * (h - 1) <= s * q) by (nonlinear_arith)
                requires
                    0 <= h - 1 <= q,
                    0 <= s,
            ;
        } else {
            assert(s * (h - 1) >= s * (q + 1)) by (nonlinear_arith)
                requires
                    h - 1 >= q + 1,
                    0 <= s,
            ;
            assert(s * (q + 1) == s * q + s) by (nonlinear_arith);
        }
    }
    if room < height - 1 {
        return false;
    }
    true
}

impl Image {
    /// An image has at least one pixel, no dimension above `u32::MAX`, rows
    /// no wider than the stride, and a buffer that reaches the end of the
    /// last row.
    pub open spec fn wf(&self) -> bool {
        &&& 0 < self.width <= self.stride
        &&& 0 < self.height
        &&& self.width <= u32::MAX
        &&& self.height <= u32::MAX
        &&& min_len(self.width as int, self.height as int, self.stride as int) <= self.pixels.len()
    }

    /// The pixel in column `x` of row `y`.
    pub open spec fn at(&self, x: int, y: int) -> Rgba {
        self.pixels@[y * self.stride + x]
    }

    /// Number of pixels, padding not counted.
    pub open spec fn area(&self) -> nat {
        (self.width * self.height) as nat
    }

    /// The pixels row by row, without padding.
    pub open spec fn view(&self) -> Seq<Rgba> {
        Seq::new(self.area(), |i: int| self.at(i % (self.width as int), i / (self.width as int)))
    }

    /// Position `y * stride + x` lies inside the buffer for every pixel of a
    /// well-formed image.
    pub proof fn lemma_offset_in_bounds(&self, x: int, y: int)
        requires
            self.wf(),
            0 <= x < self.width,
            0 <= y < self.height,
        ensures
            0 <= y * self.stride + x < self.pixels.len(),
            0 <= y * self.width + x < self.area(),
            y * self.width + x <= y * self.stride + x,
    {
        let s = self.stride as int;
        let w = self.width as int;
        let h = self.height as int;
        assert(y * s <= (h - 1) * s) by (nonlinear_arith)
            requires
                0 <= y <= h - 1,
                0 <= s,
        ;
        assert((h - 1) * s == s * (h - 1)) by (nonlinear_arith);
        assert(y * w <= (h - 1) * w) by (nonlinear_arith)
            requires
                0 <= y <= h - 1,
                0 <= w,
        ;
        assert((h - 1) * w + w == w * h) by (nonlinear_arith);
        assert(0 <= y * s && 0 <= y * w) by (nonlinear_arith)
            requires
                0 <= y,
                0 <= s,
                0 <= w,
        ;
        assert(y * w <= y * s) by (nonlinear_arith)
            requires
                0 <= y,
                0 <= w <= s,
        ;
    }

    /// The area of a well-formed image is no more than its buffer holds.
    pub proof fn lemma_area_fits(&self)
        requires
            self.wf(),
        ensures
            0 < self.width * self.height <= self.pixels.len(),
    {
        self.lemma_offset_in_bounds(self.width as int - 1, self.height as int - 1);
        let w = self.width as int;
        let h = self.height as int;
        assert((h - 1) * w + w == w * h) by (nonlinear_arith);
        assert(0 < w * h) by (nonlinear_arith)
            requires
                0 < w,
                0 < h,
        ;
    }

    /// Entry `y * width + x` of the view is the pixel at `(x, y)`.
    pub proof fn lemma_view_index(&self, x: int, y: int)
        requires
            self.wf(),
            0 <= x < self.width,
            0 <= y < self.height,
        ensures
            0 <= y * self.width + x < self.area(),
            self@[y * self.width + x] == self.at(x, y),
    {
        self.lemma_offset_in_bounds(x, y);
        let w = self.width as int;
        lemma_fundamental_div_mod_converse(y * w + x, w, y, x);
    }

    /// An image over tightly packed rows. `None` when a dimension is zero or
    /// above `u32::MAX`, or the buffer is shorter than `width * height`.
    pub fn new(pixels: Vec<Rgba>, width: usize, height: usize) -> (img: Option<Image>)
        ensures
            img is Some <==> (0 < width <= u32::MAX && 0 < height <= u32::MAX && width * height
                <= pixels.len()),
            img is Some ==> img->0 == (Image { width, height, stride: width, pixels }),
            img is Some ==> img->0.wf(),
    {
        proof {
            assert(width * (height - 1) + width == width * height) by (nonlinear_arith);
        }
        Image::new_stride(pixels, width, height, width)
    }

    /// An image whose rows lie `stride` entries apart. `None` when a
    /// dimension is zero or above `u32::MAX`, the stride is less than the
    /// width, or the buffer ends before the last row does.
    pub fn new_stride(pixels: Vec<Rgba>, width: usize, height: usize, stride: usize) -> (img: Option<Image>)
        ensures
            img is Some <==> (0 < width <= stride && 0 < height && width <= u32::MAX && height
                <= u32::MAX && min_len(
                width as int,
                height as int,
                stride as int,
            ) <= pixels.len()),
            img is Some ==> img->0 == (Image { width, height, stride, pixels }),
            img is Some ==> img->0.wf(),
    {
        if holds_image(pixels.len(), width, height, stride) {
            Some(Image { width, height, stride, pixels })
        } else {
            None
        }
    }

    /// Whether the image is well formed. Holds of every image that `new` or
    /// `new_stride` gave.
    pub fn is_valid(&self) -> (ok: bool)
        ensures
            ok == self.wf(),
    {
        holds_image(self.pixels.len(), self.width, self.height, self.stride)
    }

    pub fn width(&self) -> (w: usize)
        ensures
            w == self.width,
    {
        self.width
    }

    pub fn height(&self) -> (h: usize)
        ensures
            h == self.height,
    {
        self.height
    }

    pub fn stride(&self) -> (s: usize)
        ensures
            s == self.stride,
    {
        self.stride
    }

    /// The pixel in column `x` of row `y`.
    pub fn pixel(&self, x: usize, y: usize) -> (p: Rgba)
        requires
            self.wf(),
            x < self.width,
            y < self.height,
        ensures
            p == self.at(x as int, y as int),
    {
        proof {
            self.lemma_offset_in_bounds(x as int, y as int);
        }
        self.pixels[y * self.stride + x]
    }

    /// The pixels row by row with the padding left out.
    pub fn to_contiguous(&self) -> (out: Vec<Rgba>)
        requires
            self.wf(),
        ensures
            out@ == self@,
    {
        let mut out: Vec<Rgba> = Vec::new();
        let mut y: usize = 0;
        while y < self.height
            invariant
                self.wf(),
                y <= self.height,
                out.len() == y * self.width,
                out.len() <= self.area(),
                forall|i: int| 0 <= i < out.len() ==> out@[i] == #[trigger] self@[i],
            decreases self.height - y,
        {
            let mut x: usize = 0;
            while x < self.width
                invariant
                    self.wf(),
                    y < self.height,
                    x <= self.width,
                    out.len() == y * self.width + x,
                    out.len() <= self.area(),
                    forall|i: int| 0 <= i < out.len() ==> out@[i] == #[trigger] self@[i],
                decreases self.width - x,
            {
                proof {
                    self.lemma_offset_in_bounds(x as int, y as int);
                    self.lemma_view_index(x as int, y as int);
                }
                out.push(self.pixels[y * self.stride + x]);
                x += 1;
            }
            proof {
                assert((y + 1) * self.width == y * self.width + self.width) by (nonlinear_arith);
                assert((y + 1) * self.width <= self.height * self.width) by (nonlinear_arith)
                    requires
                        y + 1 <= self.height,
                ;
                assert(self.height * self.width == self.width * self.height) by (nonlinear_arith);
            }
            y += 1;
        }
        proof {
            assert(self.height * self.width == self.width * self.height) by (nonlinear_arith);
            assert(out@ =~= self@);
        }
        out
    }
}

} // verus!
