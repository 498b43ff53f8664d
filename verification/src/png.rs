//! Frames that arrive as PNG files.

use vstd::prelude::*;
use crate::error::EncodeError;
use crate::pixel::{Image, Rgba};

verus! {

/// What the decoder makes of the bytes of a PNG file, asked for 32-bit RGBA:
/// the pixels row by row, the width and the height, or its error code for
/// bytes that it refuses.
pub uninterp spec fn png_decoded(file: Seq<u8>) -> Result<(Seq<Rgba>, nat, nat), u32>;

/// `lodepng::decode32`, its pixels and its error turned into plain values.
/// The answer is that of `png_decoded`: the pixels, the width and the
/// height, or the error's code. Running out of memory is left aside.
#[verifier::external_body]
pub(crate) fn decode32(file: &Vec<u8>) -> (res: Result<(Vec<Rgba>, usize, usize), u32>)
    ensures
        res is Ok <==> png_decoded(file@) is Ok,
        res is Ok ==> png_decoded(file@)->Ok_0 == (res->Ok_0.0@, res->Ok_0.1 as nat, res->Ok_0.2 as nat),
        res is Err ==> png_decoded(file@)->Err_0 == res->Err_0,
{
    match lodepng::decode32(file) {
        Ok(bitmap) => Ok(
            (bitmap.buffer.iter().map(|c| Rgba::new(c.r, c.g, c.b, c.a)).collect(), bitmap.width, bitmap.height),
        ),
        Err(error) => Err(lodepng::ffi::ErrorCode::from(error).0),
    }
}

/// What was decoded is an image: it has a pixel, no dimension above
/// `u32::MAX`, and as many pixels as its size asks for.
pub open spec fn is_image(decoded: (Seq<Rgba>, nat, nat)) -> bool {
    &&& 0 < decoded.1 <= u32::MAX
    &&& 0 < decoded.2 <= u32::MAX
    &&& decoded.1 * decoded.2 <= decoded.0.len()
}

/// The file decodes, and to an image.
pub open spec fn loads(file: Seq<u8>) -> bool {
    png_decoded(file) is Ok && is_image(png_decoded(file)->Ok_0)
}

/// Why a file does not load: the decoder's error code, or nothing where the
/// decoder gave what is no image.
pub open spec fn failure_cause(file: Seq<u8>) -> Option<u32> {
    match png_decoded(file) {
        Ok(_) => None,
        Err(code) => Some(code),
    }
}

/// `image` is what the file decodes to: its pixels in tightly packed rows.
pub open spec fn decodes_to(file: Seq<u8>, image: Image) -> bool {
    &&& image.wf()
    &&& image.stride == image.width
    &&& png_decoded(file) is Ok
    &&& png_decoded(file)->Ok_0 == (image.pixels@, image.width as nat, image.height as nat)
}

/// Decodes a PNG file to a frame with tightly packed rows. A file that the
/// decoder refuses, or that holds no image, is `Decode`, with the decoder's
/// error code as its cause.
pub fn decode_png(file: &Vec<u8>) -> (res: Result<Image, EncodeError>)
    ensures
        res is Ok <==> loads(file@),
        res is Err ==> res == Err::<Image, EncodeError>(EncodeError::Decode { cause: failure_cause(file@) }),
        res is Ok ==> decodes_to(file@, res->Ok_0),
{
    match decode32(file) {
        Err(code) => Err(EncodeError::Decode { cause: Some(code) }),
        Ok((pixels, width, height)) => match Image::new(pixels, width, height) {
            Some(image) => Ok(image),
            None => Err(EncodeError::Decode { cause: None }),
        },
    }
}

} // verus!
