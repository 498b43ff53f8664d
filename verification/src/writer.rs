//! The frame writer: turns quantized frames, in order, into the blocks of
//! the output stream.

use vstd::prelude::*;
use crate::Settings;
use crate::error::EncodeError;
use crate::frame::{Disposal, FrameView, GifFrame};
use crate::pixel::Rgba;

verus! {

/// A `gif::Encoder` that writes into a buffer of its own. What the buffer
/// holds is known through `written` alone.
#[verifier::external_body]
pub struct Encoder {
    inner: gif::Encoder<Vec<u8>>,
}

/// `gif::EncodingError`, carried as it is.
#[verifier::external_type_specification]
#[verifier::external_body]
pub struct ExEncodingError(gif::EncodingError);

/// The bytes that an encoder has written into its buffer and that have not
/// been taken out of it.
pub uninterp spec fn written(encoder: Encoder) -> Seq<u8>;

/// The bytes of one frame with a palette of its own, as the encoder writes
/// them: its control extension, its image descriptor, its palette and its
/// compressed indices.
pub uninterp spec fn frame_block(
    delay: u16,
    dispose: Disposal,
    transparent: Option<u8>,
    needs_user_input: bool,
    top: u16,
    left: u16,
    width: u16,
    height: u16,
    interlaced: bool,
    palette: Seq<u8>,
    indices: Seq<u8>,
) -> Seq<u8>;

/// The bytes of a frame of this stream: kept on the screen, at offset
/// (0, 0), not interlaced, shown without waiting for the user, with its
/// delay, its transparent slot, its size, its palette as triplets and its
/// indices as they are.
pub open spec fn kept_frame_block(f: FrameView) -> Seq<u8> {
    frame_block(
        f.delay,
        Disposal::Keep,
        f.transparent,
        false,
        0,
        0,
        f.width as u16,
        f.height as u16,
        false,
        rgb_triplets(f.palette),
        f.indices,
    )
}

/// The low byte of a 16-bit number.
pub open spec fn low(n: u16) -> u8 {
    (n % 256) as u8
}

/// The high byte of a 16-bit number.
pub open spec fn high(n: u16) -> u8 {
    (n / 256) as u8
}

/// The start of a stream without a global palette: the signature `GIF89a`,
/// the screen's width and height, and an empty colour table of two entries.
pub open spec fn header_block(width: u16, height: u16) -> Seq<u8> {
    seq![
        0x47u8,
        0x49,
        0x46,
        0x38,
        0x39,
        0x61,
        low(width),
        high(width),
        low(height),
        high(height),
        0x80,
        0,
        0,
        0,
        0,
        0,
        0,
        0,
        0,
    ]
}

/// The application extension `NETSCAPE2.0` with a repeat count of 0: play the
/// animation without end.
pub open spec fn loop_block() -> Seq<u8> {
    seq![
        0x21u8,
        0xFF,
        0x0B,
        0x4E,
        0x45,
        0x54,
        0x53,
        0x43,
        0x41,
        0x50,
        0x45,
        0x32,
        0x2E,
        0x30,
        0x03,
        0x01,
        0x00,
        0x00,
        0x00,
    ]
}

/// The byte that ends a stream.
pub open spec fn trailer_block() -> Seq<u8> {
    seq![0x3Bu8]
}

/// A palette as the encoder takes it: red, green and blue of each entry in
/// turn, alpha left out.
pub open spec fn rgb_triplets(palette: Seq<Rgba>) -> Seq<u8> {
    Seq::new(
        3 * palette.len(),
        |i: int|
            if i % 3 == 0 {
                palette[i / 3].r
            } else if i % 3 == 1 {
                palette[i / 3].g
            } else {
                palette[i / 3].b
            },
    )
}

/// One block of the output stream.
pub ghost enum Block {
    /// The stream's start, with the size of the screen.
    Header { width: u16, height: u16 },
    /// The extension that makes the animation repeat without end.
    LoopForever,
    /// One frame.
    Frame(FrameView),
    /// The stream's end.
    Trailer,
}

/// The bytes of one block.
pub open spec fn block_bytes(block: Block) -> Seq<u8> {
    match block {
        Block::Header { width, height } => header_block(width, height),
        Block::LoopForever => loop_block(),
        Block::Frame(f) => kept_frame_block(f),
        Block::Trailer => trailer_block(),
    }
}

/// The bytes of a run of blocks, one after the other.
pub open spec fn stream_bytes(blocks: Seq<Block>) -> Seq<u8>
    decreases blocks.len(),
{
    if blocks.len() == 0 {
        Seq::empty()
    } else {
        stream_bytes(blocks.drop_last()) + block_bytes(blocks.last())
    }
}

/// The blocks that come before the first frame: the header with that
/// frame's size and, unless the animation plays once, the loop extension.
pub open spec fn opening(once: bool, first: FrameView) -> Seq<Block> {
    let header = Block::Header { width: first.width as u16, height: first.height as u16 };
    if once {
        seq![header]
    } else {
        seq![header, Block::LoopForever]
    }
}

/// The blocks written for `frames`: the opening, if there is any frame, and
/// then the frames in order.
pub open spec fn blocks_for(once: bool, frames: Seq<FrameView>) -> Seq<Block> {
    if frames.len() == 0 {
        Seq::empty()
    } else {
        opening(once, frames[0]) + frames.map(|i: int, f: FrameView| Block::Frame(f))
    }
}

/// A stream that plays once holds no loop extension. Any other stream holds
/// exactly one, straight after the header and before the first frame.
pub proof fn lemma_loop_extension(once: bool, frames: Seq<FrameView>)
    requires
        frames.len() > 0,
    ensures
        blocks_for(once, frames)[0] is Header,
        once ==> forall|i: int|
            0 <= i < blocks_for(once, frames).len() ==> !(#[trigger] blocks_for(once, frames)[i]
                is LoopForever),
        once ==> blocks_for(once, frames)[1] == Block::Frame(frames[0]),
        !once ==> forall|i: int|
            0 <= i < blocks_for(once, frames).len() ==> ((#[trigger] blocks_for(once, frames)[i]
                is LoopForever) <==> i == 1),
        !once ==> blocks_for(once, frames)[2] == Block::Frame(frames[0]),
{
    let blocks = blocks_for(once, frames);
    let body = frames.map(|i: int, f: FrameView| Block::Frame(f));
    let head = opening(once, frames[0]);
    assert forall|i: int| head.len() <= i < blocks.len() implies (#[trigger] blocks[i])
        == Block::Frame(frames[i - head.len()]) by {
        assert(blocks[i] == body[i - head.len()]);
    }
    assert(blocks[0] == head[0]);
    if !once {
        assert(blocks[1] == head[1]);
    }
}

/// `gif::Encoder::new` over an empty buffer and without a global palette.
/// Into a buffer in memory it succeeds, and the buffer then holds the header
/// for the given size. Running out of memory is left aside here and in the
/// wrappers below.
#[verifier::external_body]
pub(crate) fn encoder_new(width: u16, height: u16) -> (res: Result<Encoder, gif::EncodingError>)
    ensures
        res is Ok,
        written(res->Ok_0) == header_block(width, height),
{
    gif::Encoder::new(Vec::new(), width, height, &[]).map(|inner| Encoder { inner })
}

/// `gif::Encoder::write_extension` for an infinite number of repetitions.
/// It succeeds and adds the loop extension to the buffer.
#[verifier::external_body]
pub(crate) fn encoder_loop_forever(encoder: &mut Encoder) -> (res: Result<(), gif::EncodingError>)
    ensures
        res is Ok,
        written(*final(encoder)) == written(*old(encoder)) + loop_block(),
{
    encoder.inner.write_extension(gif::ExtensionData::Repetitions(gif::Repeat::Infinite))
}

/// `gif::Encoder::write_frame` for a frame with a palette of its own. It
/// succeeds unless the indices are fewer than the frame's pixels or the
/// palette holds more than 256 colours, and then adds the frame's bytes to
/// the buffer.
#[verifier::external_body]
pub(crate) fn encoder_write_frame(
    encoder: &mut Encoder,
    delay: u16,
    dispose: Disposal,
    transparent: Option<u8>,
    needs_user_input: bool,
    top: u16,
    left: u16,
    width: u16,
    height: u16,
    interlaced: bool,
    palette: Vec<u8>,
    indices: &Vec<u8>,
) -> (res: Result<(), gif::EncodingError>)
    requires
        0 < width,
        0 < height,
    ensures
        res is Ok <==> (indices.len() >= width * height && palette.len() / 3 <= 256),
        res is Ok ==> written(*final(encoder)) == written(*old(encoder)) + frame_block(
            delay,
            dispose,
            transparent,
            needs_user_input,
            top,
            left,
            width,
            height,
            interlaced,
            palette@,
            indices@,
        ),
{
    let dispose = match dispose {
        Disposal::Any => gif::DisposalMethod::Any,
        Disposal::Keep => gif::DisposalMethod::Keep,
        Disposal::Background => gif::DisposalMethod::Background,
        Disposal::Previous => gif::DisposalMethod::Previous,
    };
    let buffer = std::borrow::Cow::Borrowed(indices.as_slice());
    let palette = Some(palette);
    let frame = gif::Frame {
        delay, dispose, transparent, needs_user_input, top, left, width, height, interlaced, palette, buffer,
    };
    encoder.inner.write_frame(&frame)
}

/// `gif::Encoder::get_mut`, with the buffer's bytes taken out and the buffer
/// left empty.
#[verifier::external_body]
pub(crate) fn encoder_take(encoder: &mut Encoder) -> (bytes: Vec<u8>)
    ensures
        bytes@ == written(*old(encoder)),
        written(*final(encoder)) == Seq::<u8>::empty(),
{
    std::mem::take(encoder.inner.get_mut())
}

/// `gif::Encoder::into_inner`: it succeeds and gives the buffer, with the
/// trailer added to what it held.
#[verifier::external_body]
pub(crate) fn encoder_finish(encoder: Encoder) -> (res: Result<Vec<u8>, gif::EncodingError>)
    ensures
        res is Ok,
        res->Ok_0@ == written(encoder) + trailer_block(),
{
    encoder.inner.into_inner()
}

/// The palette as the encoder takes it.
pub fn palette_rgb(palette: &Vec<Rgba>) -> (rgb: Vec<u8>)
    requires
        palette.len() <= 256,
    ensures
        rgb@ == rgb_triplets(palette@),
{
    let mut rgb: Vec<u8> = Vec::new();
    let mut i: usize = 0;
    while i < palette.len()
        invariant
            i <= palette.len() <= 256,
            rgb.len() == 3 * i,
            forall|j: int| 0 <= j < 3 * i ==> rgb@[j] == #[trigger] rgb_triplets(palette@)[j],
        decreases palette.len() - i,
    {
        let c = palette[i];
        rgb.push(c.r);
        rgb.push(c.g);
        rgb.push(c.b);
        i += 1;
    }
    proof {
        assert(rgb@ =~= rgb_triplets(palette@));
    }
    rgb
}

/// The frame writer between two frames.
pub struct FrameWriter {
    pub settings: Settings,
    /// The encoder; made when the first frame arrives.
    pub encoder: Option<Encoder>,
    /// A block was refused: the stream is broken and nothing more is
    /// written.
    pub failed: bool,
    /// The stream has been ended.
    pub finished: bool,
    /// The frames written so far.
    pub frames: Ghost<Seq<FrameView>>,
}

impl FrameWriter {
    /// Frames can still be written.
    pub open spec fn open(&self) -> bool {
        !self.failed && !self.finished
    }

    /// While the stream is open the encoder exists once a frame has been
    /// written, and its buffer is empty between two calls: every byte has
    /// been handed to the caller.
    pub open spec fn wf(&self) -> bool {
        self.open() ==> {
            &&& self.encoder is Some <==> self.frames@.len() > 0
            &&& self.encoder is Some ==> written(self.encoder->0) == Seq::<u8>::empty()
        }
    }

    /// The blocks written so far, the trailer not counted.
    pub open spec fn blocks(&self) -> Seq<Block> {
        blocks_for(self.settings.once, self.frames@)
    }

    /// The frame can be written: the stream is open and the frame is no
    /// wider and no higher than the format allows.
    pub open spec fn takes(self, frame: GifFrame) -> bool {
        self.open() && frame.width <= u16::MAX && frame.height <= u16::MAX
    }

    /// What `write` does: the writer before the call, the frame, the writer
    /// after the call and what the call gave.
    pub open spec fn writes_to(self, frame: GifFrame, after: FrameWriter, res: Result<Vec<u8>, EncodeError>) -> bool {
        let fresh = new_blocks(self.settings.once, self.frames@.len() == 0, frame@);
        &&& after.wf()
        &&& after.settings == self.settings
        &&& after.finished == self.finished
        &&& res is Ok <==> self.takes(frame)
        &&& res is Err ==> {
            &&& res == Err::<Vec<u8>, EncodeError>(EncodeError::Encoder)
            &&& after.failed || after.finished
            &&& after.frames@ == self.frames@
        }
        &&& res is Ok ==> {
            &&& after.open()
            &&& after.frames@ == self.frames@.push(frame@)
            &&& after.blocks() == self.blocks() + fresh
            &&& res->Ok_0@ == stream_bytes(fresh)
        }
    }

    /// What `finish` does: the writer before the call, the writer after the
    /// call and what the call gave.
    pub open spec fn finishes_to(self, after: FrameWriter, res: Result<Vec<u8>, EncodeError>) -> bool {
        &&& after.wf()
        &&& after.settings == self.settings
        &&& after.frames@ == self.frames@
        &&& after.failed == self.failed
        &&& res is Ok <==> !self.failed
        &&& res is Err ==> res == Err::<Vec<u8>, EncodeError>(EncodeError::Encoder)
        &&& res is Ok ==> {
            &&& after.finished
            &&& res->Ok_0@ == (if !self.finished && self.frames@.len() > 0 {
                trailer_block()
            } else {
                Seq::<u8>::empty()
            })
        }
    }

    /// A writer that has written nothing.
    pub fn new(settings: Settings) -> (w: FrameWriter)
        ensures
            w.wf(),
            w.settings == settings,
            w.open(),
            w.frames@ == Seq::<FrameView>::empty(),
    {
        FrameWriter { settings, encoder: None, failed: false, finished: false, frames: Ghost(Seq::empty()) }
    }

    /// Whether a block was refused.
    pub fn has_failed(&self) -> (b: bool)
        ensures
            b == self.failed,
    {
        self.failed
    }

    /// Whether the stream has been ended.
    pub fn has_finished(&self) -> (b: bool)
        ensures
            b == self.finished,
    {
        self.finished
    }

    /// Writes one frame and gives the bytes to append to the output. Before
    /// the first frame come the header, with that frame's size as the size
    /// of the screen, and the loop extension unless the animation plays
    /// once.
    ///
    /// A frame wider or higher than 65535 cannot be written. After a failure,
    /// and after the stream has been ended, every call fails.
    pub fn write(&mut self, frame: &GifFrame) -> (res: Result<Vec<u8>, EncodeError>)
        requires
            old(self).wf(),
            frame.wf(),
        ensures
            old(self).writes_to(*frame, *final(self), res),
    {
        if self.failed || self.finished {
            return Err(EncodeError::Encoder);
        }
        if frame.width > 0xFFFF || frame.height > 0xFFFF {
            self.failed = true;
            return Err(EncodeError::Encoder);
        }
        let width = frame.width as u16;
        let height = frame.height as u16;
        let mut encoder = match self.encoder.take() {
            Some(e) => e,
            None => {
                let mut e = match encoder_new(width, height) {
                    Ok(e) => e,
                    Err(_) => {
                        self.failed = true;
                        return Err(EncodeError::Encoder);
                    },
                };
                if !self.settings.once {
                    match encoder_loop_forever(&mut e) {
                        Ok(()) => {},
                        Err(_) => {
                            self.failed = true;
                            return Err(EncodeError::Encoder);
                        },
                    }
                }
                e
            },
        };
        let rgb = palette_rgb(&frame.palette);
        match encoder_write_frame(
            &mut encoder,
            frame.delay,
            Disposal::Keep,
            frame.transparent,
            false,
            0,
            0,
            width,
            height,
            false,
            rgb,
            &frame.indices,
        ) {
            Ok(()) => {},
            Err(_) => {
                self.failed = true;
                return Err(EncodeError::Encoder);
            },
        }
        let bytes = encoder_take(&mut encoder);
        self.encoder = Some(encoder);
        proof {
            let once = self.settings.once;
            let before = self.frames@;
            lemma_stream_of_new_blocks(once, before.len() == 0, frame@);
            lemma_blocks_grow(once, before, frame@);
            self.frames = Ghost(before.push(frame@));
        }
        Ok(bytes)
    }

    /// Ends the stream and gives the bytes to append to the output: the
    /// trailer, or nothing where no frame was written or the stream has
    /// been ended before.
    pub fn finish(&mut self) -> (res: Result<Vec<u8>, EncodeError>)
        requires
            old(self).wf(),
        ensures
            old(self).finishes_to(*final(self), res),
    {
        if self.failed {
            return Err(EncodeError::Encoder);
        }
        if self.finished {
            return Ok(Vec::new());
        }
        match self.encoder.take() {
            None => {
                self.finished = true;
                Ok(Vec::new())
            },
            Some(encoder) => match encoder_finish(encoder) {
                Ok(bytes) => {
                    self.finished = true;
                    Ok(bytes)
                },
                Err(_) => {
                    self.failed = true;
                    Err(EncodeError::Encoder)
                },
            },
        }
    }
}

/// The blocks that writing one frame adds to the stream.
pub open spec fn new_blocks(once: bool, first: bool, frame: FrameView) -> Seq<Block> {
    if first {
        opening(once, frame).push(Block::Frame(frame))
    } else {
        seq![Block::Frame(frame)]
    }
}

/// The bytes of the blocks that one frame adds: those of the opening, if
/// the frame is the first, and then the frame's own.
pub proof fn lemma_stream_of_new_blocks(once: bool, first: bool, frame: FrameView)
    ensures
        stream_bytes(new_blocks(once, first, frame)) == (if !first {
            Seq::<u8>::empty()
        } else if once {
            header_block(frame.width as u16, frame.height as u16)
        } else {
            header_block(frame.width as u16, frame.height as u16) + loop_block()
        }) + block_bytes(Block::Frame(frame)),
{
    let blocks = new_blocks(once, first, frame);
    reveal_with_fuel(stream_bytes, 4);
    let b1 = blocks.drop_last();
    assert(blocks.last() == Block::Frame(frame));
    if !first {
        assert(b1 =~= Seq::<Block>::empty());
        assert(stream_bytes(blocks) =~= block_bytes(Block::Frame(frame)));
    } else if once {
        assert(b1 =~= seq![Block::Header { width: frame.width as u16, height: frame.height as u16 }]);
        assert(b1.drop_last() =~= Seq::<Block>::empty());
        assert(stream_bytes(b1) =~= header_block(frame.width as u16, frame.height as u16));
    } else {
        let h = Block::Header { width: frame.width as u16, height: frame.height as u16 };
        assert(b1 =~= seq![h, Block::LoopForever]);
        assert(b1.drop_last() =~= seq![h]);
        assert(b1.drop_last().drop_last() =~= Seq::<Block>::empty());
        assert(stream_bytes(b1.drop_last()) =~= header_block(
            frame.width as u16,
            frame.height as u16,
        ));
    }
}

/// The blocks for one frame more are the blocks so far and the blocks that
/// the frame adds.
pub proof fn lemma_blocks_grow(once: bool, frames: Seq<FrameView>, frame: FrameView)
    ensures
        blocks_for(once, frames.push(frame)) == blocks_for(once, frames) + new_blocks(
            once,
            frames.len() == 0,
            frame,
        ),
{
    let after = frames.push(frame);
    let f = |i: int, f: FrameView| Block::Frame(f);
    if frames.len() == 0 {
        assert(after.map(f) =~= seq![Block::Frame(frame)]);
        assert(blocks_for(once, after) =~= blocks_for(once, frames) + new_blocks(
            once,
            true,
            frame,
        ));
    } else {
        assert(after[0] == frames[0]);
        assert(after.map(f) =~= frames.map(f).push(Block::Frame(frame)));
        assert(blocks_for(once, after) =~= blocks_for(once, frames) + new_blocks(
            once,
            false,
            frame,
        ));
    }
}

} // verus!
