//! Frames before and after quantization.

use vstd::prelude::*;
use crate::pixel::{Image, Rgba};

verus! {

/// A decoded frame as the collector hands it on: a raster and the time to
/// show it, in hundredths of a second.
#[derive(Clone, Debug)]
pub struct RawFrame {
    pub image: Image,
    pub delay: u16,
}

/// A quantized frame: a palette of at most 256 colours, one palette index
/// per pixel, and the palette slot that stands for "leave this pixel as it
/// is", if there is one.
#[derive(Clone, Debug)]
pub struct GifFrame {
    pub width: usize,
    pub height: usize,
    pub palette: Vec<Rgba>,
    pub indices: Vec<u8>,
    pub transparent: Option<u8>,
    pub delay: u16,
}

/// What a decoder does with a frame once it has been shown.
#[derive(Clone, Copy, Debug, PartialEq, Eq, Structural)]
pub enum Disposal {
    /// Nothing is said.
    Any,
    /// The frame stays on the screen.
    Keep,
    /// The frame's area is cleared.
    Background,
    /// The screen goes back to what it showed before the frame.
    Previous,
}

/// A quantized frame as a mathematical value.
pub ghost struct FrameView {
    pub width: nat,
    pub height: nat,
    pub palette: Seq<Rgba>,
    pub indices: Seq<u8>,
    pub transparent: Option<u8>,
    pub delay: u16,
}

/// `slot` is the first palette entry with alpha 0, or `None` where the
/// palette has no such entry.
pub open spec fn is_transparent_slot(palette: Seq<Rgba>, slot: Option<u8>) -> bool {
    match slot {
        Some(i) => {
            &&& i < palette.len()
            &&& palette[i as int].a == 0
            &&& forall|j: int| 0 <= j < i ==> (#[trigger] palette[j]).a != 0
        },
        None => forall|j: int| 0 <= j < palette.len() ==> (#[trigger] palette[j]).a != 0,
    }
}

/// Every index points into a palette of `colors` entries.
pub open spec fn within_palette(indices: Seq<u8>, colors: nat) -> bool {
    forall|i: int| 0 <= i < indices.len() ==> (#[trigger] indices[i]) < colors
}

/// A palette and indices are an image of `area` pixels: between 1 and 256
/// colours, one index for each pixel, every index inside the palette.
pub open spec fn is_indexed_image(palette: Seq<Rgba>, indices: Seq<u8>, area: nat) -> bool {
    &&& 1 <= palette.len() <= 256
    &&& indices.len() == area
    &&& within_palette(indices, palette.len())
}

impl FrameView {
    /// Dimensions that are not zero, a palette and indices that are an image
    /// of that size, and the transparent slot where the palette has it.
    pub open spec fn wf(self) -> bool {
        &&& 0 < self.width <= u32::MAX
        &&& 0 < self.height <= u32::MAX
        &&& is_indexed_image(self.palette, self.indices, self.width * self.height)
        &&& is_transparent_slot(self.palette, self.transparent)
    }
}

impl View for GifFrame {
    type V = FrameView;

    open spec fn view(&self) -> FrameView {
        FrameView {
            width: self.width as nat,
            height: self.height as nat,
            palette: self.palette@,
            indices: self.indices@,
            transparent: self.transparent,
            delay: self.delay,
        }
    }
}

impl GifFrame {
    pub open spec fn wf(&self) -> bool {
        self@.wf()
    }

    /// Whether the frame is well formed. Holds of every frame that the
    /// make-frames stage gave out.
    pub fn is_valid(&self) -> (ok: bool)
        ensures
            ok == self.wf(),
    {
        if self.width == 0 || self.width > 0xFFFF_FFFF || self.height == 0 || self.height > 0xFFFF_FFFF {
            return false;
        }
        if self.palette.len() == 0 || self.palette.len() > 256 {
            return false;
        }
        if !indices_within(&self.indices, self.palette.len()) {
            return false;
        }
        assert(self.width * self.height <= 0xFFFF_FFFF * 0xFFFF_FFFF) by (nonlinear_arith)
            requires
                0 <= self.width <= 0xFFFF_FFFF,
                0 <= self.height <= 0xFFFF_FFFF,
        ;
        if (self.width as u64) * (self.height as u64) != self.indices.len() as u64 {
            return false;
        }
        let slot = transparent_slot(&self.palette);
        proof {
            if is_transparent_slot(self.palette@, self.transparent) {
                lemma_transparent_slot_unique(self.palette@, slot, self.transparent);
            }
        }
        match (slot, self.transparent) {
            (Some(a), Some(b)) => a == b,
            (None, None) => true,
            _ => false,
        }
    }
}

/// Whether every index points into a palette of `colors` entries.
pub fn indices_within(indices: &Vec<u8>, colors: usize) -> (ok: bool)
    ensures
        ok == within_palette(indices@, colors as nat),
{
    let mut i: usize = 0;
    while i < indices.len()
        invariant
            i <= indices.len(),
            forall|j: int| 0 <= j < i ==> (#[trigger] indices@[j]) < colors,
        decreases indices.len() - i,
    {
        if indices[i] as usize >= colors {
            return false;
        }
        i += 1;
    }
    true
}

/// Finds the palette's transparent slot: the first entry with alpha 0.
pub fn transparent_slot(palette: &Vec<Rgba>) -> (slot: Option<u8>)
    requires
        palette.len() <= 256,
    ensures
        is_transparent_slot(palette@, slot),
{
    let mut i: usize = 0;
    while i < palette.len()
        invariant
            i <= palette.len() <= 256,
            forall|j: int| 0 <= j < i ==> (#[trigger] palette@[j]).a != 0,
        decreases palette.len() - i,
    {
        if palette[i].a == 0 {
            return Some(i as u8);
        }
        i += 1;
    }
    None
}

/// A palette has one transparent slot and no other: two answers to
/// `is_transparent_slot` are the same answer.
pub proof fn lemma_transparent_slot_unique(palette: Seq<Rgba>, a: Option<u8>, b: Option<u8>)
    requires
        is_transparent_slot(palette, a),
        is_transparent_slot(palette, b),
    ensures
        a == b,
{
    match (a, b) {
        (Some(i), Some(j)) => {
            if i < j {
                assert(palette[i as int].a != 0);
            } else if j < i {
                assert(palette[j as int].a != 0);
            }
        },
        (Some(i), None) => {
            assert(palette[i as int].a != 0);
        },
        (None, Some(j)) => {
            assert(palette[j as int].a != 0);
        },
        (None, None) => {},
    }
}

} // verus!
