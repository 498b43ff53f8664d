//! The make-frames stage: takes decoded frames in index order, one frame
//! ahead of the frame it works on, and turns each into a palette-indexed
//! frame while it keeps the screen that a decoder would show.
//!
//! The palette kernel itself works on floating point and is run by the
//! caller: `advance` hands out what to quantize, `complete` takes what came
//! of it.

use vstd::prelude::*;
use crate::Settings;
use crate::error::EncodeError;
use crate::frame::{
    Disposal, FrameView, GifFrame, RawFrame, indices_within, is_indexed_image, is_transparent_slot,
    transparent_slot,
};
use crate::importance::{attenuate, attenuated_map, full, full_map, lookahead, lookahead_map};
use crate::pixel::Rgba;
use crate::screen::{blank, blit, screen_blit, screen_new, screen_pixels, screen_size, screen_snapshot};

verus! {

/// What the palette kernel is asked to do for one frame.
#[derive(Clone, Debug)]
pub struct QuantizeJob {
    pub width: usize,
    pub height: usize,
    /// The frame's pixels, row by row without padding.
    pub pixels: Vec<Rgba>,
    /// One weight for each pixel.
    pub importance_map: Vec<u8>,
    /// What the screen shows before this frame; nothing for the first frame.
    pub background: Option<Vec<Rgba>>,
    /// The gamma of the pixels, in hundredths; 0 stands for sRGB.
    pub gamma_percent: u8,
    /// The least quality that is acceptable: below it the kernel fails.
    pub min_quality: u8,
    /// The quality to aim for, 1 to 100.
    pub quality: u8,
    /// The speed to set, where the kernel's own is not to be used.
    pub speed: Option<u8>,
    /// A colour that the palette must hold.
    pub fixed_color: Rgba,
    /// Dithering on the remap step, in hundredths.
    pub dither_percent: u8,
}

/// A frame that waits for its successor: its pixels without padding, and its
/// delay.
pub struct Held {
    pub pixels: Vec<Rgba>,
    pub delay: u16,
}

/// The screen with the size it was made for.
pub struct Canvas {
    pub width: usize,
    pub height: usize,
    pub screen: gif_dispose::Screen,
}

impl Canvas {
    pub open spec fn area(&self) -> nat {
        (self.width * self.height) as nat
    }

    pub open spec fn wf(&self) -> bool {
        &&& 0 < self.width <= u32::MAX
        &&& 0 < self.height <= u32::MAX
        &&& self.width * self.height <= usize::MAX
        &&& screen_size(self.screen) == (self.width as nat, self.height as nat)
        &&& screen_pixels(self.screen).len() == self.area()
    }

    /// What the screen shows, row by row.
    pub open spec fn view(&self) -> Seq<Rgba> {
        screen_pixels(self.screen)
    }
}

/// The make-frames stage between two frames.
pub struct Quantizer {
    pub settings: Settings,
    /// Frames quantized so far: the index of the frame that comes next.
    pub done: usize,
    /// The screen; made when the first frame arrives.
    pub canvas: Option<Canvas>,
    /// The frame that waits for its successor.
    pub curr: Option<Held>,
    /// The delay of the frame that the kernel is working on.
    pub pending: Option<u16>,
    /// No further frame is taken: the input has ended or the stage failed.
    pub ended: bool,
    /// Weights of the frame last handed out; kept for a last frame, which
    /// has no successor to compute them from.
    pub importance_map: Vec<u8>,
    /// The frames given out so far.
    pub emitted: Ghost<Seq<FrameView>>,
}

/// What a decoder shows after `frames`, each as large as the screen and
/// drawn over the one before: the reference against which the running
/// screen is held.
pub open spec fn replay(frames: Seq<FrameView>, area: nat) -> Seq<Rgba>
    decreases frames.len(),
{
    if frames.len() == 0 {
        blank(area)
    } else {
        let last = frames.last();
        blit(replay(frames.drop_last(), area), last.palette, last.indices, last.transparent)
    }
}

/// The weights for the frame at index `done`: computed from its successor
/// where it has one, else those of the frame before; then, for every frame
/// but the first, cut down by what the screen shows.
pub open spec fn frame_weights(
    kept: Seq<u8>,
    curr: Seq<Rgba>,
    next: Option<Seq<Rgba>>,
    screen: Seq<Rgba>,
    done: nat,
    quality: u8,
) -> Seq<u8> {
    let ahead = match next {
        Some(n) => lookahead_map(curr, n),
        None => kept,
    };
    if done > 0 {
        attenuated_map(ahead, screen, curr, quality)
    } else {
        ahead
    }
}

/// The quality at which the frame at index `done` is quantized: the first
/// frame always at 100.
pub open spec fn frame_quality(settings: Settings, done: nat) -> u8 {
    if done == 0 {
        100
    } else {
        settings.quality
    }
}

impl QuantizeJob {
    /// The job for the frame at index `done` with pixels `curr`, given the
    /// weights and what the screen shows.
    pub open spec fn is_for(
        &self,
        settings: Settings,
        done: nat,
        width: nat,
        height: nat,
        curr: Seq<Rgba>,
        weights: Seq<u8>,
        screen: Seq<Rgba>,
    ) -> bool {
        &&& self.width == width
        &&& self.height == height
        &&& self.pixels@ == curr
        &&& self.importance_map@ == weights
        &&& match self.background {
            Some(b) => done > 0 && b@ == screen,
            None => done == 0,
        }
        &&& self.gamma_percent == 0
        &&& self.min_quality == 0
        &&& self.quality == frame_quality(settings, done)
        &&& self.speed == (if settings.fast {
            Some(10u8)
        } else {
            None::<u8>
        })
        &&& self.fixed_color == Rgba::transparent()
        &&& self.dither_percent == 50
    }
}

impl Quantizer {
    /// What the screen shows; a blank of no size before the first frame.
    pub open spec fn screen(&self) -> Seq<Rgba> {
        match self.canvas {
            Some(c) => c@,
            None => Seq::empty(),
        }
    }

    /// Pixels per frame; 0 before the first frame.
    pub open spec fn area(&self) -> nat {
        match self.canvas {
            Some(c) => c.area(),
            None => 0,
        }
    }

    /// The stage holds together: the screen is what a decoder shows after
    /// the frames given out so far, every frame given out has the size of
    /// the first, and what is held for the next step has that size too.
    pub open spec fn wf(&self) -> bool {
        &&& self.settings.wf()
        &&& self.done == self.emitted@.len()
        &&& match self.canvas {
            None => self.done == 0 && self.curr is None && self.pending is None,
            Some(c) => {
                &&& c.wf()
                &&& c@ == replay(self.emitted@, c.area())
                &&& self.importance_map.len() == c.area()
                &&& (self.curr is Some ==> self.curr->0.pixels.len() == c.area())
                &&& (self.curr is None ==> self.ended)
                &&& forall|i: int|
                    0 <= i < self.emitted@.len() ==> {
                        &&& (#[trigger] self.emitted@[i]).wf()
                        &&& self.emitted@[i].width == c.width
                        &&& self.emitted@[i].height == c.height
                    }
            },
        }
        &&& self.ended ==> self.curr is None
        &&& self.pending is Some ==> self.done < usize::MAX
    }

    /// Width of the frames; 0 before the first frame.
    pub open spec fn width(&self) -> usize {
        match self.canvas {
            Some(c) => c.width,
            None => 0,
        }
    }

    /// Height of the frames; 0 before the first frame.
    pub open spec fn height(&self) -> usize {
        match self.canvas {
            Some(c) => c.height,
            None => 0,
        }
    }

    /// The incoming frame is as large as the frames before it.
    pub open spec fn fits(&self, frame: RawFrame) -> bool {
        frame.image.width == self.width() && frame.image.height == self.height()
    }

    /// A job has been handed out and its result is awaited.
    pub open spec fn busy(&self) -> bool {
        self.pending is Some
    }

    /// What `advance` does: the stage before the call, what came in, the
    /// stage after the call and what the call gave.
    pub open spec fn advances_to(self, incoming: Option<RawFrame>, after: Quantizer, res: Result<Option<QuantizeJob>, EncodeError>) -> bool {
        &&& after.wf()
        &&& after.settings == self.settings
        &&& after.done == self.done
        &&& after.emitted@ == self.emitted@
        &&& self.ended ==> {
            &&& res == Ok::<Option<QuantizeJob>, EncodeError>(None)
            &&& after == self
        }
        &&& !self.ended && self.curr is None && incoming is None ==> {
            &&& res == Err::<Option<QuantizeJob>, EncodeError>(EncodeError::NoFrames)
            &&& after.ended
            &&& after.canvas is None
        }
        &&& !self.ended && self.curr is None && incoming is Some ==> {
            &&& res == Ok::<Option<QuantizeJob>, EncodeError>(None)
            &&& !after.ended
            &&& !after.busy()
            &&& after.canvas is Some
            &&& after.fits(incoming->0)
            &&& after.screen() == blank(incoming->0.image.area())
            &&& after.curr is Some
            &&& after.curr->0.pixels@ == incoming->0.image@
            &&& after.curr->0.delay == incoming->0.delay
            &&& after.importance_map@ == full_map(incoming->0.image.area())
        }
        &&& !self.ended && self.curr is Some ==> {
            &&& after.canvas is Some
            &&& after.width() == self.width()
            &&& after.height() == self.height()
            &&& after.screen() == self.screen()
        }
        &&& !self.ended && self.curr is Some && incoming is Some && !self.fits(
            incoming->0,
        ) ==> {
            &&& res == Err::<Option<QuantizeJob>, EncodeError>(
                EncodeError::WrongSize {
                    frame: (self.done + 2) as usize,
                    width: incoming->0.image.width,
                    height: incoming->0.image.height,
                    expected_width: self.width(),
                    expected_height: self.height(),
                },
            )
            &&& after.ended
            &&& !after.busy()
        }
        &&& !self.ended && self.curr is Some && (incoming is Some ==> self.fits(
            incoming->0,
        )) ==> {
            let next = match incoming {
                Some(f) => Some(f.image@),
                None => None,
            };
            let weights = frame_weights(
                self.importance_map@,
                self.curr->0.pixels@,
                next,
                self.screen(),
                self.done as nat,
                self.settings.quality,
            );
            &&& res is Ok
            &&& res->Ok_0 is Some
            &&& res->Ok_0->0.is_for(
                self.settings,
                self.done as nat,
                self.width() as nat,
                self.height() as nat,
                self.curr->0.pixels@,
                weights,
                self.screen(),
            )
            &&& after.importance_map@ == weights
            &&& after.pending == Some(self.curr->0.delay)
            &&& after.ended == (incoming is None)
            &&& match incoming {
                Some(f) => {
                    &&& after.curr is Some
                    &&& after.curr->0.pixels@ == f.image@
                    &&& after.curr->0.delay == f.delay
                },
                None => after.curr is None,
            }
        }
    }

    /// What `complete` does: the stage before the call, what the kernel
    /// gave, the stage after the call and what the call gave.
    pub open spec fn completes_to(self, palette: Vec<Rgba>, indices: Vec<u8>, after: Quantizer, res: Result<GifFrame, EncodeError>) -> bool {
        &&& after.wf()
        &&& !after.busy()
        &&& after.settings == self.settings
        &&& after.canvas is Some
        &&& after.width() == self.width()
        &&& after.height() == self.height()
        &&& after.importance_map == self.importance_map
        &&& !is_indexed_image(palette@, indices@, self.area()) ==> {
            &&& res == Err::<GifFrame, EncodeError>(EncodeError::Quantizer)
            &&& after.ended
            &&& after.curr is None
            &&& after.done == self.done
            &&& after.emitted@ == self.emitted@
            &&& after.screen() == self.screen()
        }
        &&& is_indexed_image(palette@, indices@, self.area()) ==> {
            &&& res is Ok
            &&& res->Ok_0.wf()
            &&& res->Ok_0.width == self.width()
            &&& res->Ok_0.height == self.height()
            &&& res->Ok_0.palette == palette
            &&& res->Ok_0.indices == indices
            &&& is_transparent_slot(palette@, res->Ok_0.transparent)
            &&& Some(res->Ok_0.delay) == self.pending
            &&& after.done == self.done + 1
            &&& after.emitted@ == self.emitted@.push(res->Ok_0@)
            &&& after.screen() == blit(
                self.screen(),
                palette@,
                indices@,
                res->Ok_0.transparent,
            )
            &&& after.screen() == replay(after.emitted@, after.area())
            &&& after.ended == self.ended
            &&& after.curr == self.curr
        }
    }

    /// A stage that has seen no frame.
    pub fn new(settings: Settings) -> (q: Quantizer)
        requires
            settings.wf(),
        ensures
            q.wf(),
            q.settings == settings,
            q.done == 0,
            q.canvas is None,
            !q.busy(),
            !q.ended,
            q.emitted@ == Seq::<FrameView>::empty(),
    {
        Quantizer {
            settings,
            done: 0,
            canvas: None,
            curr: None,
            pending: None,
            ended: false,
            importance_map: Vec::new(),
            emitted: Ghost(Seq::empty()),
        }
    }

    /// Whether a job has been handed out and its result is awaited.
    pub fn is_busy(&self) -> (b: bool)
        ensures
            b == self.busy(),
    {
        self.pending.is_some()
    }

    /// Whether the stage takes no further frame.
    pub fn has_ended(&self) -> (b: bool)
        ensures
            b == self.ended,
    {
        self.ended
    }

    /// Number of frames quantized so far.
    pub fn frames_done(&self) -> (n: usize)
        ensures
            n == self.done,
    {
        self.done
    }

    /// Takes the next frame in index order, or with `None` the news that the
    /// input has ended, and says what to quantize next, if anything.
    ///
    /// The first frame is only held: its weights need the frame after it. From
    /// then on every call hands out the job for the frame that was held and
    /// holds the new one. A frame of another size than the frame before it
    /// ends the stage with `WrongSize`, and an input that ends before its
    /// first frame with `NoFrames`; after the end nothing more is handed out.
    pub fn advance(&mut self, incoming: Option<RawFrame>) -> (res: Result<Option<QuantizeJob>, EncodeError>)
        requires
            old(self).wf(),
            !old(self).busy(),
            old(self).done < usize::MAX - 1,
            incoming is Some ==> incoming->0.image.wf(),
        ensures
            old(self).advances_to(incoming, *final(self), res),
    {
        if self.ended {
            return Ok(None);
        }
        let held = self.curr.take();
        match held {
            None => {
                match incoming {
                    None => {
                        self.ended = true;
                        Err(EncodeError::NoFrames)
                    },
                    Some(first) => {
                        let RawFrame { image, delay } = first;
                        proof {
                            image.lemma_area_fits();
                        }
                        let width = image.width();
                        let height = image.height();
                        let screen = screen_new(width, height);
                        let pixels = image.to_contiguous();
                        self.importance_map = full(width * height);
                        self.canvas = Some(Canvas { width, height, screen });
                        self.curr = Some(Held { pixels, delay });
                        Ok(None)
                    },
                }
            },
            Some(curr) => {
                let mut canvas = self.canvas.take().unwrap();
                let next = match incoming {
                    None => None,
                    Some(frame) => {
                        let RawFrame { image, delay } = frame;
                        if image.width() != canvas.width || image.height() != canvas.height {
                            let e = EncodeError::WrongSize {
                                frame: self.done + 2,
                                width: image.width(),
                                height: image.height(),
                                expected_width: canvas.width,
                                expected_height: canvas.height,
                            };
                            self.canvas = Some(canvas);
                            self.ended = true;
                            return Err(e);
                        }
                        let pixels = image.to_contiguous();
                        lookahead(&mut self.importance_map, &curr.pixels, &pixels);
                        Some(Held { pixels, delay })
                    },
                };
                let background = if self.done > 0 {
                    let shown = screen_snapshot(&mut canvas.screen);
                    attenuate(&mut self.importance_map, &shown, &curr.pixels, self.settings.quality);
                    Some(shown)
                } else {
                    None
                };
                let job = QuantizeJob {
                    width: canvas.width,
                    height: canvas.height,
                    pixels: curr.pixels,
                    importance_map: copy_weights(&self.importance_map),
                    background,
                    gamma_percent: 0,
                    min_quality: 0,
                    quality: if self.done == 0 {
                        100
                    } else {
                        self.settings.quality
                    },
                    speed: if self.settings.fast {
                        Some(10)
                    } else {
                        None
                    },
                    fixed_color: Rgba { r: 0, g: 0, b: 0, a: 0 },
                    dither_percent: 50,
                };
                self.canvas = Some(canvas);
                self.pending = Some(curr.delay);
                self.ended = next.is_none();
                self.curr = next;
                Ok(Some(job))
            },
        }
    }

    /// Takes what the palette kernel made of the job handed out last, and
    /// gives the quantized frame: the palette and the indices as they came,
    /// the delay of the frame they were made from, and the palette's
    /// transparent slot. The frame is drawn on the screen before the next
    /// job is prepared.
    ///
    /// What is no image of the frame ends the stage with `Quantizer`: a
    /// palette without colours or with more than 256, indices that are not
    /// one for each pixel, an index that points past the palette.
    pub fn complete(&mut self, palette: Vec<Rgba>, indices: Vec<u8>) -> (res: Result<GifFrame, EncodeError>)
        requires
            old(self).wf(),
            old(self).busy(),
        ensures
            old(self).completes_to(palette, indices, *final(self), res),
    {
        let delay = self.pending.take().unwrap();
        let mut canvas = self.canvas.take().unwrap();
        if palette.len() == 0 || palette.len() > 256 || indices.len() != canvas.width * canvas.height
            || !indices_within(&indices, palette.len()) {
            self.canvas = Some(canvas);
            self.curr = None;
            self.ended = true;
            return Err(EncodeError::Quantizer);
        }
        let transparent = transparent_slot(&palette);
        screen_blit(
            &mut canvas.screen,
            &palette,
            Disposal::Keep,
            0,
            0,
            &indices,
            canvas.width,
            canvas.height,
            transparent,
        );
        let frame = GifFrame {
            width: canvas.width,
            height: canvas.height,
            palette,
            indices,
            transparent,
            delay,
        };
        proof {
            let before = self.emitted@;
            let after = before.push(frame@);
            let area = canvas.area();
            assert(after.drop_last() =~= before);
            assert(after.last() == frame@);
            assert(replay(after, area) == blit(
                replay(before, area),
                frame@.palette,
                frame@.indices,
                frame@.transparent,
            ));
            assert(frame@.wf());
            assert forall|i: int| 0 <= i < after.len() implies {
                &&& (#[trigger] after[i]).wf()
                &&& after[i].width == canvas.width
                &&& after[i].height == canvas.height
            } by {
                if i < before.len() {
                    assert(after[i] == before[i]);
                }
            }
            self.emitted = Ghost(after);
        }
        self.canvas = Some(canvas);
        self.done = self.done + 1;
        Ok(frame)
    }
}

/// In every state of the stage the screen is what a decoder shows after the
/// frames given out so far.
pub proof fn lemma_screen_is_replay(q: Quantizer)
    requires
        q.wf(),
        q.canvas is Some,
    ensures
        q.screen() == replay(q.emitted@, q.area()),
        q.screen().len() == q.width() * q.height(),
{
}

/// The first frame is quantized at quality 100 and without a background,
/// whatever quality the settings ask for.
pub proof fn lemma_first_frame_at_full_quality(
    q: Quantizer,
    incoming: Option<RawFrame>,
    after: Quantizer,
    res: Result<Option<QuantizeJob>, EncodeError>,
)
    requires
        q.advances_to(incoming, after, res),
        q.done == 0,
        res is Ok,
        res->Ok_0 is Some,
    ensures
        res->Ok_0->0.quality == 100,
        res->Ok_0->0.background is None,
{
}

/// Every later frame is quantized at the quality of the settings, against
/// what the screen shows.
pub proof fn lemma_later_frames_at_set_quality(
    q: Quantizer,
    incoming: Option<RawFrame>,
    after: Quantizer,
    res: Result<Option<QuantizeJob>, EncodeError>,
)
    requires
        q.advances_to(incoming, after, res),
        q.done > 0,
        res is Ok,
        res->Ok_0 is Some,
    ensures
        res->Ok_0->0.quality == q.settings.quality,
        res->Ok_0->0.background is Some,
        res->Ok_0->0.background->0@ == q.screen(),
{
}

/// A frame that is not as large as the frames before it is refused under its
/// number, counted from 1, and nothing is quantized after it.
pub proof fn lemma_wrong_size_is_refused(
    q: Quantizer,
    frame: RawFrame,
    after: Quantizer,
    res: Result<Option<QuantizeJob>, EncodeError>,
)
    requires
        q.advances_to(Some(frame), after, res),
        !q.ended,
        q.curr is Some,
        !q.fits(frame),
    ensures
        res == Err::<Option<QuantizeJob>, EncodeError>(
            EncodeError::WrongSize {
                frame: (q.done + 2) as usize,
                width: frame.image.width,
                height: frame.image.height,
                expected_width: q.width(),
                expected_height: q.height(),
            },
        ),
        after.ended,
        after.emitted@ == q.emitted@,
{
}

/// A copy of `weights`.
fn copy_weights(weights: &Vec<u8>) -> (copy: Vec<u8>)
    ensures
        copy@ == weights@,
{
    let mut copy: Vec<u8> = Vec::new();
    let mut i: usize = 0;
    while i < weights.len()
        invariant
            i <= weights.len(),
            copy.len() == i,
            forall|j: int| 0 <= j < i ==> copy@[j] == weights@[j],
        decreases weights.len() - i,
    {
        copy.push(weights[i]);
        i += 1;
    }
    proof {
        assert(copy@ =~= weights@);
    }
    copy
}

} // verus!
