//! The virtual screen: what a decoder shows after the frames emitted so far.

use vstd::prelude::*;
use crate::frame::Disposal;
use crate::pixel::Rgba;

verus! {

/// `gif_dispose::Screen`, carried as it is: what it holds is known through
/// `screen_pixels` and `screen_size` alone.
#[verifier::external_type_specification]
#[verifier::external_body]
pub struct ExScreen(gif_dispose::Screen);

/// The pixels that a screen holds, row by row.
pub uninterp spec fn screen_pixels(screen: gif_dispose::Screen) -> Seq<Rgba>;

/// The width and the height that a screen was made with.
pub uninterp spec fn screen_size(screen: gif_dispose::Screen) -> (nat, nat);

/// A canvas on which nothing has been drawn: transparent black everywhere.
pub open spec fn blank(area: nat) -> Seq<Rgba> {
    Seq::new(area, |p: int| Rgba::transparent())
}

/// The colour that a decoder shows for palette slot `index`: the slot's red,
/// green and blue, fully opaque. Slots past the end of the palette are black.
pub open spec fn shown_color(palette: Seq<Rgba>, index: u8) -> Rgba {
    if index < palette.len() {
        Rgba { r: palette[index as int].r, g: palette[index as int].g, b: palette[index as int].b, a: 255 }
    } else {
        Rgba { r: 0, g: 0, b: 0, a: 255 }
    }
}

/// The screen after a frame that covers it has been drawn and kept: a pixel
/// whose index is the transparent one stays as it was, any other takes its
/// palette colour.
pub open spec fn blit(screen: Seq<Rgba>, palette: Seq<Rgba>, indices: Seq<u8>, transparent: Option<u8>) -> Seq<Rgba> {
    Seq::new(
        screen.len(),
        |p: int|
            if transparent == Some(indices[p]) {
                screen[p]
            } else {
                shown_color(palette, indices[p])
            },
    )
}

/// `gif_dispose::Screen::new` without a global palette. The new screen has
/// the given size and is transparent black everywhere.
#[verifier::external_body]
pub(crate) fn screen_new(width: usize, height: usize) -> (screen: gif_dispose::Screen)
    requires
        0 < width <= u32::MAX,
        height <= u32::MAX,
        width * height <= usize::MAX,
    ensures
        screen_size(screen) == (width as nat, height as nat),
        screen_pixels(screen) == blank((width * height) as nat),
{
    gif_dispose::Screen::new(width, height, None)
}

/// `gif_dispose::Screen::blit` of a frame as large as the screen, with its
/// own palette, kept on the screen at offset (0, 0). The screen keeps its
/// size; its pixels change as `blit` says.
#[verifier::external_body]
pub(crate) fn screen_blit(
    screen: &mut gif_dispose::Screen,
    palette: &Vec<Rgba>,
    dispose: Disposal,
    left: u16,
    top: u16,
    indices: &Vec<u8>,
    width: usize,
    height: usize,
    transparent: Option<u8>,
)
    requires
        dispose is Keep,
        left == 0,
        top == 0,
        0 < width <= u32::MAX,
        0 < height <= u32::MAX,
        screen_size(*old(screen)) == (width as nat, height as nat),
        screen_pixels(*old(screen)).len() == width * height,
        indices.len() == width * height,
    ensures
        screen_size(*final(screen)) == screen_size(*old(screen)),
        screen_pixels(*final(screen)) == blit(
            screen_pixels(*old(screen)),
            palette@,
            indices@,
            transparent,
        ),
{
    let pal: Vec<rgb::RGB8> = palette.iter().map(|c| rgb::RGB8::new(c.r, c.g, c.b)).collect();
    let frame = imgref::ImgRef::new(indices.as_slice(), width, height);
    let method = match dispose {
        Disposal::Any => gif::DisposalMethod::Any,
        Disposal::Keep => gif::DisposalMethod::Keep,
        Disposal::Background => gif::DisposalMethod::Background,
        Disposal::Previous => gif::DisposalMethod::Previous,
    };
    let _ = screen.blit(Some(&pal), method, left, top, frame, transparent);
}

/// `gif_dispose::Screen::pixels_rgba`, copied out pixel by pixel. The screen
/// stays as it was.
#[verifier::external_body]
pub(crate) fn screen_snapshot(screen: &mut gif_dispose::Screen) -> (pixels: Vec<Rgba>)
    requires
        screen_size(*old(screen)).0 > 0,
    ensures
        pixels@ == screen_pixels(*old(screen)),
        screen_pixels(*final(screen)) == screen_pixels(*old(screen)),
        screen_size(*final(screen)) == screen_size(*old(screen)),
{
    screen.pixels_rgba().pixels().map(|c| Rgba { r: c.r, g: c.g, b: c.b, a: c.a }).collect()
}

} // verus!
