//! The resize policy: to what size a frame is scaled before it is queued.

use vstd::prelude::*;
use crate::error::EncodeError;
use crate::pixel::{Image, Rgba};

verus! {

/// `resize::Error`, carried as it is.
#[verifier::external_type_specification]
#[verifier::external_body]
pub struct ExResizeError(resize::Error);

/// The smaller of a limit and a dimension.
pub open spec fn capped(limit: u32, dimension: nat) -> nat {
    if limit < dimension {
        limit as nat
    } else {
        dimension
    }
}

/// The width of the resized frame: the source's, capped by the limit.
pub open spec fn target_width(limit: u32, source_width: nat) -> nat {
    capped(limit, source_width)
}

/// The height of the resized frame. With a limit, the source's height capped
/// by it, whatever that does to the aspect ratio; without one, the source's
/// height scaled as the width was, rounded down.
pub open spec fn target_height(limit: Option<u32>, source_width: nat, source_height: nat, width: nat) -> nat {
    match limit {
        Some(h) => capped(h, source_height),
        None => source_height * width / source_width,
    }
}

/// The pixels that the resizer makes of `source`, an image of
/// `source_width` by `source_height` in tightly packed rows, for a target of
/// `width` by `height`: RGBA, Lanczos3, row by row.
pub uninterp spec fn lanczos3_pixels(
    source: Seq<Rgba>,
    source_width: nat,
    source_height: nat,
    width: nat,
    height: nat,
) -> Seq<Rgba>;

/// The resizer's own arithmetic stays within the machine's numbers: it
/// squares the target's width, and adds a row to the size of the source.
pub open spec fn within_reach(source_width: nat, source_height: nat, width: nat) -> bool {
    &&& width * width <= usize::MAX
    &&& source_width * source_height + source_width <= usize::MAX
}

/// `resize::resize` for RGBA pixels and the Lanczos3 filter, from tightly
/// packed rows into a buffer of `len` pixels. For a source and a target that
/// have a pixel, a buffer of the target's size and sizes within the
/// resizer's reach it succeeds, and gives one pixel for each pixel of the
/// target: those of `lanczos3_pixels`. Running out of memory is left aside.
#[verifier::external_body]
#[allow(deprecated)]
pub(crate) fn lanczos3(
    source: &Vec<Rgba>,
    source_width: usize,
    source_height: usize,
    width: usize,
    height: usize,
    len: usize,
) -> (res: Result<Vec<Rgba>, resize::Error>)
    requires
        0 < width <= source_width,
        0 < height <= source_height,
        source.len() == source_width * source_height,
        len == width * height,
        within_reach(source_width as nat, source_height as nat, width as nat),
    ensures
        res is Ok,
        res->Ok_0.len() == len,
        res->Ok_0@ == lanczos3_pixels(
            source@,
            source_width as nat,
            source_height as nat,
            width as nat,
            height as nat,
        ),
{
    let src: Vec<rgb::RGBA8> = source.iter().map(|c| rgb::RGBA8::new(c.r, c.g, c.b, c.a)).collect();
    let mut dst = vec![rgb::RGBA8::default(); len];
    let (format, filter) = (resize::Pixel::RGBA8, resize::Type::Lanczos3);
    resize::resize(source_width, source_height, width, height, format, filter, &src, &mut dst)?;
    Ok(dst.iter().map(|c| Rgba::new(c.r, c.g, c.b, c.a)).collect())
}

/// What `resized` gives for a frame and the limits: the frame itself where
/// no width is set; `Resize` where the target has no pixel or is beyond the
/// resizer's reach; else the resizer's pixels for the frame without its padding, in tightly packed
/// rows of the target's size.
pub open spec fn resizes_to(image: Image, width: Option<u32>, height: Option<u32>, res: Result<Image, EncodeError>) -> bool {
    let w = target_width(width->0, image.width as nat);
    let h = target_height(height, image.width as nat, image.height as nat, w);
    if width is None {
        res == Ok::<Image, EncodeError>(image)
    } else if w == 0 || h == 0 || !within_reach(image.width as nat, image.height as nat, w) {
        res == Err::<Image, EncodeError>(EncodeError::Resize)
    } else {
        let out = res->Ok_0;
        &&& res is Ok
        &&& out.wf()
        &&& out.width == w
        &&& out.height == h
        &&& out.stride == out.width
        &&& out.pixels.len() == out.width * out.height
        &&& out.pixels@ == lanczos3_pixels(image@, image.width as nat, image.height as nat, w, h)
    }
}

/// Scales a frame down to the limits, or hands it back untouched where no
/// width is set. The result is never larger than the source in either
/// dimension, and its rows are tightly packed. The resizer is handed the
/// frame without its padding.
///
/// A target without a single row or column is `Resize`, and so is one whose
/// width the resizer cannot square, or a source to whose size it cannot add
/// a row, within the machine's numbers.
pub fn resized(image: Image, width: Option<u32>, height: Option<u32>) -> (res: Result<Image, EncodeError>)
    requires
        image.wf(),
    ensures
        resizes_to(image, width, height, res),
{
    let limit = match width {
        None => {
            return Ok(image);
        },
        Some(w) => w,
    };
    let source_width = image.width;
    let source_height = image.height;
    let dst_width: usize = if (limit as usize) < source_width {
        limit as usize
    } else {
        source_width
    };
    let dst_height: usize = match height {
        Some(h) => if (h as usize) < source_height {
            h as usize
        } else {
            source_height
        },
        None => {
            assert(source_height * dst_width <= 0xFFFF_FFFF * 0xFFFF_FFFF) by (nonlinear_arith)
                requires
                    0 <= source_height <= 0xFFFF_FFFF,
                    0 <= dst_width <= 0xFFFF_FFFF,
            ;
            let scaled: u64 = (source_height as u64) * (dst_width as u64) / (source_width as u64);
            assert(source_height * dst_width / (source_width as int) <= source_height)
                by (nonlinear_arith)
                requires
                    0 <= dst_width <= source_width,
                    0 < source_width,
                    0 <= source_height,
            ;
            scaled as usize
        },
    };
    if dst_width == 0 || dst_height == 0 {
        return Err(EncodeError::Resize);
    }
    proof {
        image.lemma_area_fits();
        assert(dst_width * dst_height <= source_width * source_height) by (nonlinear_arith)
            requires
                0 <= dst_width <= source_width,
                0 <= dst_height <= source_height,
        ;
    }
    let source = image.to_contiguous();
    if dst_width.checked_mul(dst_width).is_none() || source.len().checked_add(source_width).is_none() {
        return Err(EncodeError::Resize);
    }
    let target = match lanczos3(
        &source,
        source_width,
        source_height,
        dst_width,
        dst_height,
        dst_width * dst_height,
    ) {
        Ok(pixels) => pixels,
        Err(_) => {
            return Err(EncodeError::Resize);
        },
    };
    match Image::new(target, dst_width, dst_height) {
        Some(out) => Ok(out),
        None => Err(EncodeError::Resize),
    }
}

} // verus!
