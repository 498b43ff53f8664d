//! Quality-aware conversion of full-colour frames into palette-indexed
//! animation frames: the reordering queue, the importance maps, the
//! make-frames stage and the frame writer.
//!
//! Nothing here waits, starts a thread or touches a file. `Collector` and
//! `Writer` are the two ends of the pipeline as one caller drives them in
//! turn; a caller with threads shares the same pieces under a lock.

use vstd::prelude::*;
use vstd::string::*;

pub mod pixel;
pub mod diff;
pub mod importance;
pub mod screen;
pub mod error;
pub mod frame;
pub mod quantizer;
pub mod ordqueue;
pub mod writer;
pub mod scaling;
pub mod png;

use crate::error::{load_text, message_text, EncodeError};
use crate::frame::{is_indexed_image, GifFrame, RawFrame};
use crate::ordqueue::{Next, OrdQueue, Push, Slot, position};
use crate::pixel::{Image, Rgba};
use crate::png::{decode_png, decodes_to, failure_cause, loads};
use crate::quantizer::{QuantizeJob, Quantizer};
use crate::scaling::{resized, resizes_to};
use crate::writer::FrameWriter;

verus! {

/// How to encode.
#[derive(Clone, Copy, Debug, PartialEq, Eq, Structural)]
pub struct Settings {
    /// Resize to at most this width, if set.
    pub width: Option<u32>,
    /// Resize to at most this height, if the width is set. The aspect ratio
    /// is not kept.
    pub height: Option<u32>,
    /// 1 to 100; applies to every frame but the first.
    pub quality: u8,
    /// Play the animation once: no loop extension is written.
    pub once: bool,
    /// Lower quality, faster encode.
    pub fast: bool,
}

impl Settings {
    /// The quality lies between 1 and 100.
    pub open spec fn wf(&self) -> bool {
        1 <= self.quality <= 100
    }

    /// Whether the quality lies between 1 and 100.
    pub fn is_valid(&self) -> (ok: bool)
        ensures
            ok == self.wf(),
    {
        1 <= self.quality && self.quality <= 100
    }
}

/// Frames that each queue holds at most.
pub const QUEUE_CAPACITY: usize = 4;

/// Collects the frames that will be encoded: resizes each and queues it
/// under its index.
pub struct Collector {
    pub width: Option<u32>,
    pub height: Option<u32>,
    pub queue: OrdQueue<RawFrame>,
}

/// Encodes the collected frames.
pub struct Writer {
    pub quantizer: Quantizer,
    pub frames: FrameWriter,
    /// The error that ended the encode, if one did.
    pub failure: Option<EncodeError>,
}

/// What the writer asks of its caller next.
pub enum Step {
    /// The frame that is due has not been submitted: submit frames, or end
    /// the collection, and call again.
    Waiting,
    /// The frame that was due is held until its successor is known: call
    /// again.
    Primed,
    /// Run the palette kernel on this job and hand in what it gave.
    Quantize(QuantizeJob),
    /// The stream is complete with these bytes.
    Done(Vec<u8>),
}

/// What a step leaves behind as the error that ended the encode.
pub open spec fn failure_of<T>(res: Result<T, EncodeError>) -> Option<EncodeError> {
    match res {
        Ok(_) => None,
        Err(e) => Some(e),
    }
}

/// The answer of `Quantizer::advance` that a step of the writer stands for.
pub open spec fn as_advance(res: Result<Step, EncodeError>) -> Result<Option<QuantizeJob>, EncodeError> {
    match res {
        Ok(Step::Quantize(job)) => Ok(Some(job)),
        Ok(_) => Ok(None),
        Err(e) => Err(e),
    }
}

/// Starts an encode: a collector whose queue holds up to four frames, and a
/// writer that has seen none.
pub fn new(settings: Settings) -> (ends: (Collector, Writer))
    requires
        settings.wf(),
    ensures
        ends.0.wf(),
        ends.0.width == settings.width,
        ends.0.height == settings.height,
        ends.0.queue.capacity == QUEUE_CAPACITY,
        ends.0.queue.slots@ == Seq::<Slot<RawFrame>>::empty(),
        ends.0.queue.expected() == 0,
        !ends.0.queue.closed,
        !ends.0.queue.abandoned,
        ends.1.wf(),
        ends.1.quantizer.settings == settings,
        ends.1.quantizer.done == 0,
        ends.1.quantizer.canvas is None,
        !ends.1.quantizer.busy(),
        !ends.1.quantizer.ended,
        ends.1.frames.open(),
        ends.1.failure is None,
        ends.1.frames.frames@ == Seq::<crate::frame::FrameView>::empty(),
{
    let collector = Collector { width: settings.width, height: settings.height, queue: OrdQueue::new(QUEUE_CAPACITY) };
    let writer = Writer { quantizer: Quantizer::new(settings), frames: FrameWriter::new(settings), failure: None };
    (collector, writer)
}

impl Collector {
    /// The queue is within its capacity and every frame in it is an image.
    pub open spec fn wf(&self) -> bool {
        &&& self.queue.wf()
        &&& forall|i: int|
            0 <= i < self.queue.slots@.len() ==> (#[trigger] self.queue.slots@[i]).value.image.wf()
    }

    /// Why the queue takes no frame now, if it does not.
    pub open spec fn refusal(self) -> Option<EncodeError> {
        if self.queue.closed || self.queue.abandoned {
            Some(EncodeError::QueueClosed)
        } else if self.queue.slots.len() >= self.queue.capacity {
            Some(EncodeError::QueueFull)
        } else {
            None
        }
    }

    /// What adding a frame does: the collector before the call, the frame as
    /// it was handed in, the collector after the call and what the call
    /// gave. A frame that is taken waits last in the queue, resized.
    pub open spec fn adds(self, frame_index: usize, source: Image, delay: u16, after: Collector, res: Result<(), EncodeError>) -> bool {
        let queued = after.queue.slots@.last().value.image;
        &&& after.wf()
        &&& after.width == self.width
        &&& after.height == self.height
        &&& after.queue.capacity == self.queue.capacity
        &&& after.queue.expected() == self.queue.expected()
        &&& after.queue.closed == self.queue.closed
        &&& after.queue.abandoned == self.queue.abandoned
        &&& self.refusal() is Some ==> res == Err::<(), EncodeError>(self.refusal()->0)
        &&& self.refusal() is None ==> resizes_to(
            source,
            self.width,
            self.height,
            match res {
                Ok(_) => Ok(queued),
                Err(e) => Err(e),
            },
        )
        &&& res is Err ==> after.queue.slots@ == self.queue.slots@
        &&& res is Ok ==> after.queue.slots@ == self.queue.slots@.push(
            Slot { index: frame_index, value: RawFrame { image: queued, delay } },
        )
    }

    /// Whether the queue holds as many frames as it may.
    pub fn is_full(&self) -> (b: bool)
        ensures
            b == (self.queue.slots.len() >= self.queue.capacity),
    {
        self.queue.is_full()
    }

    /// Queues a decoded frame under its index, resized to the limits that
    /// the collector was made with. Indices start at 0; each is to be set
    /// once, in any order. The delay is in hundredths of a second.
    ///
    /// A frame is refused with `QueueClosed` once an end of the queue is
    /// gone and with `QueueFull` while the queue is full; in neither case
    /// is the frame resized.
    pub fn add_frame_rgba(&mut self, frame_index: usize, image: Image, delay: u16) -> (res: Result<(), EncodeError>)
        requires
            old(self).wf(),
            image.wf(),
        ensures
            old(self).adds(frame_index, image, delay, *final(self), res),
    {
        if self.queue.is_closed() {
            return Err(EncodeError::QueueClosed);
        }
        if self.queue.is_full() {
            return Err(EncodeError::QueueFull);
        }
        let frame = RawFrame {
            image: match resized(image, self.width, self.height) {
                Ok(scaled) => scaled,
                Err(e) => {
                    return Err(e);
                },
            },
            delay,
        };
        match self.queue.push(frame_index, frame) {
            Push::Accepted => {
                proof {
                    let slots = self.queue.slots@;
                    assert forall|i: int| 0 <= i < slots.len() implies (#[trigger] slots[i]).value.image.wf() by {
                        if i < slots.len() - 1 {
                            assert(slots[i] == old(self).queue.slots@[i]);
                        }
                    }
                    assert(slots.last().value == frame);
                }
                Ok(())
            },
            Push::Full(_) => Err(EncodeError::QueueFull),
            Push::Closed(_) => Err(EncodeError::QueueClosed),
        }
    }

    /// Queues a frame that comes as a PNG file: decodes the file's bytes and
    /// goes on as `add_frame_rgba` does. A file that does not decode to an
    /// image is refused, whatever the state of the queue, with the error
    /// `Load` that names the path and keeps the decoder's error as its
    /// cause, and nothing is queued.
    pub fn add_frame_png_file(&mut self, frame_index: usize, path: &str, file: &Vec<u8>, delay: u16) -> (res: Result<(), EncodeError>)
        requires
            old(self).wf(),
        ensures
            final(self).wf(),
            !loads(file@) ==> {
                &&& res is Err
                &&& res->Err_0 is Load
                &&& res->Err_0->path@ == path@
                &&& res->Err_0.cause_of() == failure_cause(file@)
                &&& message_text(res->Err_0) == load_text(path@)
                &&& *final(self) == *old(self)
            },
            loads(file@) ==> exists|decoded: Image|
                {
                    &&& decodes_to(file@, decoded)
                    &&& #[trigger] old(self).adds(frame_index, decoded, delay, *final(self), res)
                },
    {
        match decode_png(file) {
            Ok(image) => {
                let res = self.add_frame_rgba(frame_index, image, delay);
                proof {
                    assert(old(self).adds(frame_index, image, delay, *self, res));
                }
                res
            },
            Err(e) => Err(EncodeError::Load { path: String::from_str(path), cause: e.cause() }),
        }
    }

    /// No further frame will be submitted. This is what lets the writer
    /// finish.
    pub fn finish(&mut self)
        requires
            old(self).wf(),
        ensures
            final(self).wf(),
            final(self).width == old(self).width,
            final(self).height == old(self).height,
            final(self).queue == (OrdQueue { closed: true, ..old(self).queue }),
    {
        self.queue.close();
    }
}

impl Writer {
    /// Both stages hold together. Until an error ends the encode, every frame
    /// that the make-frames stage gave out has been written; after one, no
    /// job is out.
    pub open spec fn wf(&self) -> bool {
        &&& self.quantizer.wf()
        &&& self.frames.wf()
        &&& self.frames.settings == self.quantizer.settings
        &&& self.frames.finished ==> self.quantizer.ended && !self.quantizer.busy()
        &&& self.failure is None ==> !self.frames.failed && self.frames.frames@ == self.quantizer.emitted@
        &&& self.failure is Some ==> !(self.failure->0 is Load) && !self.quantizer.busy()
    }

    /// Whether a job has been handed out and its result is awaited.
    pub fn is_busy(&self) -> (b: bool)
        ensures
            b == self.quantizer.busy(),
    {
        self.quantizer.is_busy()
    }

    /// One step of the encode: takes from the collector the frame that is
    /// due, if it waits there, and prepares it for the palette kernel.
    ///
    /// `Waiting` where the frame has not been submitted and may yet be;
    /// `Primed` where it was taken and is held for its successor;
    /// `Quantize` where a frame is ready for the kernel, whose result goes
    /// to `quantized`; `Done` with the stream's last bytes where the
    /// collection has ended and every frame was written.
    ///
    /// Once an error has ended the encode every call repeats it and takes
    /// nothing from the collector.
    pub fn write(&mut self, collector: &mut Collector) -> (res: Result<Step, EncodeError>)
        requires
            old(self).wf(),
            old(collector).wf(),
            !old(self).quantizer.busy(),
            old(self).quantizer.done < usize::MAX - 1,
        ensures
            final(self).wf(),
            final(collector).wf(),
            final(collector).width == old(collector).width,
            final(collector).height == old(collector).height,
            old(self).failure is Some ==> {
                &&& res == Err::<Step, EncodeError>(old(self).failure->0)
                &&& *final(self) == *old(self)
                &&& *final(collector) == *old(collector)
            },
            old(self).failure is None ==> final(self).failure == failure_of(res),
            old(self).failure is None && old(self).quantizer.ended ==> {
                &&& res is Ok
                &&& res->Ok_0 is Done
                &&& old(self).frames.finishes_to(final(self).frames, Ok(res->Ok_0->Done_0))
                &&& final(self).quantizer == old(self).quantizer
                &&& *final(collector) == *old(collector)
            },
            old(self).failure is None && !old(self).quantizer.ended ==> {
                let q = old(collector).queue;
                let frame = q.slots@[position(q.slots@, q.expected()) as int].value;
                let incoming = if q.due() {
                    Some(frame)
                } else {
                    None
                };
                &&& final(self).frames == old(self).frames
                &&& q.due() ==> q.pops_to(final(collector).queue, Next::Ready(frame))
                &&& !q.due() ==> final(collector).queue == q
                &&& !q.due() && !q.closed && !q.abandoned ==> {
                    &&& res is Ok
                    &&& res->Ok_0 is Waiting
                    &&& *final(self) == *old(self)
                }
                &&& q.due() || q.closed || q.abandoned ==> {
                    &&& old(self).quantizer.advances_to(incoming, final(self).quantizer, as_advance(res))
                    &&& res is Ok ==> res->Ok_0 is Quantize || res->Ok_0 is Primed
                }
            },
    {
        match &self.failure {
            Some(e) => {
                return Err(e.again());
            },
            None => {},
        }
        if self.quantizer.has_ended() {
            return match self.frames.finish() {
                Ok(bytes) => Ok(Step::Done(bytes)),
                Err(e) => {
                    self.failure = Some(e.again());
                    Err(e)
                },
            };
        }
        let advanced = match collector.queue.pop() {
            Next::Ready(frame) => {
                proof {
                    let q = old(collector).queue;
                    let i = position(q.slots@, q.expected()) as int;
                    crate::ordqueue::lemma_position(q.slots@, q.expected());
                    assert(frame == q.slots@[i].value);
                    let slots = collector.queue.slots@;
                    assert forall|j: int| 0 <= j < slots.len() implies (#[trigger] slots[j]).value.image.wf() by {
                        if j < i {
                            assert(slots[j] == q.slots@[j]);
                        } else {
                            assert(slots[j] == q.slots@[j + 1]);
                        }
                    }
                }
                self.quantizer.advance(Some(frame))
            },
            Next::Pending => {
                return Ok(Step::Waiting);
            },
            Next::Finished => self.quantizer.advance(None),
        };
        match advanced {
            Ok(Some(job)) => Ok(Step::Quantize(job)),
            Ok(None) => Ok(Step::Primed),
            Err(e) => {
                self.failure = Some(e.again());
                Err(e)
            },
        }
    }

    /// Takes what the palette kernel made of the job handed out last, and
    /// gives the bytes of the frame to append to the output: before the first
    /// frame the header and, unless the animation plays once, the loop
    /// extension.
    ///
    /// What is no image of the frame, and a frame wider or higher than 65535,
    /// end the encode.
    pub fn quantized(&mut self, palette: Vec<Rgba>, indices: Vec<u8>) -> (res: Result<Vec<u8>, EncodeError>)
        requires
            old(self).wf(),
            old(self).quantizer.busy(),
        ensures
            final(self).wf(),
            final(self).failure == failure_of(res),
            res is Ok <==> (is_indexed_image(palette@, indices@, old(self).quantizer.area()) && old(
                self,
            ).quantizer.width() <= u16::MAX && old(self).quantizer.height() <= u16::MAX),
            !is_indexed_image(palette@, indices@, old(self).quantizer.area()) ==> {
                &&& old(self).quantizer.completes_to(palette, indices, final(self).quantizer, Err(res->Err_0))
                &&& final(self).frames == old(self).frames
            },
            is_indexed_image(palette@, indices@, old(self).quantizer.area()) ==> exists|frame: GifFrame|
                {
                    &&& #[trigger] old(self).quantizer.completes_to(
                        palette,
                        indices,
                        final(self).quantizer,
                        Ok(frame),
                    )
                    &&& old(self).frames.writes_to(frame, final(self).frames, res)
                },
    {
        let frame = match self.quantizer.complete(palette, indices) {
            Ok(frame) => frame,
            Err(e) => {
                self.failure = Some(e.again());
                return Err(e);
            },
        };
        let res = self.frames.write(&frame);
        proof {
            assert(old(self).quantizer.completes_to(palette, indices, self.quantizer, Ok(frame)));
            assert(old(self).frames.writes_to(frame, self.frames, res));
        }
        match res {
            Ok(bytes) => Ok(bytes),
            Err(e) => {
                self.failure = Some(e.again());
                Err(e)
            },
        }
    }

    /// Ends the stream where it stands, as after an error on the way: gives
    /// the trailer if a frame was written and the stream has not been ended,
    /// else nothing.
    pub fn close(self) -> (res: Result<Vec<u8>, EncodeError>)
        requires
            self.wf(),
        ensures
            res is Ok <==> !self.frames.failed,
            res is Err ==> res == Err::<Vec<u8>, EncodeError>(EncodeError::Encoder),
            res is Ok ==> res->Ok_0@ == (if !self.frames.finished && self.frames.frames@.len() > 0 {
                crate::writer::trailer_block()
            } else {
                Seq::<u8>::empty()
            }),
    {
        let mut frames = self.frames;
        frames.finish()
    }
}

/// While the stream is whole, the blocks written are those of the frames
/// that the make-frames stage gave out, and the screen is what a decoder
/// shows after them.
pub proof fn lemma_stream_matches_screen(w: Writer)
    requires
        w.wf(),
        w.failure is None,
    ensures
        w.frames.blocks() == crate::writer::blocks_for(w.quantizer.settings.once, w.quantizer.emitted@),
        w.quantizer.canvas is Some ==> w.quantizer.screen() == crate::quantizer::replay(
            w.frames.frames@,
            w.quantizer.area(),
        ),
{
}

} // verus!
