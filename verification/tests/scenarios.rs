use gifski::error::EncodeError;
use gifski::frame::{GifFrame, RawFrame};
use gifski::ordqueue::{Next, OrdQueue, Push};
use gifski::pixel::{Image, Rgba};
use gifski::quantizer::{QuantizeJob, Quantizer};
use gifski::writer::FrameWriter;
use gifski::Settings;

fn settings(quality: u8, once: bool) -> Settings {
    Settings { width: None, height: None, quality, once, fast: false }
}

fn solid(width: usize, height: usize, colour: Rgba) -> Image {
    Image::new(vec![colour; width * height], width, height).unwrap()
}

fn to_liq(pixels: &[Rgba]) -> Vec<imagequant::RGBA> {
    pixels.iter().map(|c| imagequant::RGBA::new(c.r, c.g, c.b, c.a)).collect()
}

/// Runs the palette kernel as the job asks. A kernel built with debug
/// assertions stops on a map without any weight. Such a frame asks for no
/// pixel to change, so it is answered here by a frame that is transparent
/// everywhere.
fn run_kernel(job: &QuantizeJob) -> Result<(Vec<Rgba>, Vec<u8>), imagequant::Error> {
    if job.importance_map.iter().all(|w| *w == 0) {
        return Ok((vec![job.fixed_color], vec![0; job.pixels.len()]));
    }
    let mut liq = imagequant::Attributes::new();
    if let Some(speed) = job.speed {
        liq.set_speed(speed.into())?;
    }
    liq.set_quality(job.min_quality, job.quality)?;
    let gamma = f64::from(job.gamma_percent) / 100.;
    let mut img = liq.new_image_stride(to_liq(&job.pixels), job.width, job.height, job.width, gamma)?;
    img.set_importance_map(job.importance_map.clone())?;
    if let Some(bg) = &job.background {
        img.set_background(liq.new_image(to_liq(bg), job.width, job.height, gamma)?)?;
    }
    let c = job.fixed_color;
    img.add_fixed_color(imagequant::RGBA::new(c.r, c.g, c.b, c.a))?;
    let mut res = liq.quantize(&mut img)?;
    res.set_dithering_level(f32::from(job.dither_percent) / 100.)?;
    let (palette, indices) = res.remapped(&mut img)?;
    Ok((palette.iter().map(|c| Rgba::new(c.r, c.g, c.b, c.a)).collect(), indices))
}

/// What one run of the pipeline gave.
struct Run {
    jobs: Vec<QuantizeJob>,
    frames: Vec<GifFrame>,
    bytes: Vec<u8>,
    writes: usize,
}

struct Pipeline {
    queue: OrdQueue<RawFrame>,
    quantizer: Quantizer,
    writer: FrameWriter,
    run: Run,
}

impl Pipeline {
    fn new(settings: Settings) -> Pipeline {
        assert!(settings.is_valid());
        Pipeline {
            queue: OrdQueue::new(4),
            quantizer: Quantizer::new(settings),
            writer: FrameWriter::new(settings),
            run: Run { jobs: Vec::new(), frames: Vec::new(), bytes: Vec::new(), writes: 0 },
        }
    }

    fn feed(&mut self, incoming: Option<RawFrame>) -> Result<(), EncodeError> {
        assert!(!self.quantizer.is_busy());
        if let Some(job) = self.quantizer.advance(incoming)? {
            let (palette, indices) = run_kernel(&job).map_err(|_| EncodeError::Quantizer)?;
            self.run.jobs.push(job);
            let frame = self.quantizer.complete(palette, indices)?;
            let bytes = self.writer.write(&frame)?;
            self.run.bytes.extend_from_slice(&bytes);
            self.run.writes += 1;
            self.run.frames.push(frame);
        }
        Ok(())
    }

    /// Takes from the queue what is ready.
    fn pump(&mut self) -> Result<bool, EncodeError> {
        loop {
            match self.queue.pop() {
                Next::Ready(raw) => self.feed(Some(raw))?,
                Next::Pending => return Ok(false),
                Next::Finished => return Ok(true),
            }
        }
    }

    fn submit(&mut self, index: usize, image: Image, delay: u16) -> Result<(), EncodeError> {
        let mut frame = RawFrame { image, delay };
        loop {
            match self.queue.push(index, frame) {
                Push::Accepted => return Ok(()),
                Push::Closed(_) => return Err(EncodeError::QueueClosed),
                Push::Full(back) => {
                    frame = back;
                    let before = self.queue.len();
                    self.pump()?;
                    assert!(self.queue.len() < before, "the queue is full of frames that are not due");
                },
            }
        }
    }

    fn finish(mut self) -> Result<Run, EncodeError> {
        self.queue.close();
        assert!(self.pump()?);
        self.feed(None)?;
        let last = self.writer.finish()?;
        assert!(self.writer.finish()?.is_empty());
        self.run.bytes.extend_from_slice(&last);
        Ok(self.run)
    }
}

fn encode(settings: Settings, submissions: Vec<(usize, Image, u16)>) -> Result<Run, EncodeError> {
    let mut p = Pipeline::new(settings);
    for (index, image, delay) in submissions {
        p.submit(index, image, delay)?;
        p.pump()?;
    }
    p.finish()
}

/// What a decoder makes of the stream: the repeat setting, and for each
/// frame its delay, its size and the screen after it.
fn decode(bytes: &[u8]) -> (gif::Repeat, Vec<(u16, u16, u16, Vec<Rgba>)>) {
    let mut options = gif::DecodeOptions::new();
    options.set_color_output(gif::ColorOutput::Indexed);
    let mut decoder = options.read_info(bytes).unwrap();
    let mut screen = gif_dispose::Screen::new_decoder(&decoder);
    let mut shown = Vec::new();
    while let Some(frame) = decoder.read_next_frame().unwrap() {
        screen.blit_frame(frame).unwrap();
        let pixels = screen.pixels_rgba().pixels().map(|c| Rgba::new(c.r, c.g, c.b, c.a)).collect();
        shown.push((frame.delay, frame.width, frame.height, pixels));
    }
    (decoder.repeat(), shown)
}

const RED: Rgba = Rgba { r: 255, g: 0, b: 0, a: 255 };
const GREEN: Rgba = Rgba { r: 0, g: 255, b: 0, a: 255 };
const BLUE: Rgba = Rgba { r: 0, g: 0, b: 255, a: 255 };

const HEADER_2X2: [u8; 19] = [0x47, 0x49, 0x46, 0x38, 0x39, 0x61, 2, 0, 2, 0, 0x80, 0, 0, 0, 0, 0, 0, 0, 0];
const LOOP: [u8; 19] =
    [0x21, 0xFF, 0x0B, b'N', b'E', b'T', b'S', b'C', b'A', b'P', b'E', b'2', b'.', b'0', 3, 1, 0, 0, 0];

#[test]
fn single_red_frame_played_once() {
    let run = encode(settings(80, true), vec![(0, solid(2, 2, RED), 10)]).unwrap();
    assert_eq!(run.frames.len(), 1);
    assert_eq!(run.writes, 1);
    let f = &run.frames[0];
    assert_eq!((f.width, f.height, f.delay), (2, 2, 10));
    assert!(!f.palette.is_empty());
    assert_eq!(f.indices.len(), 4);
    assert_eq!(run.jobs[0].quality, 100);
    assert!(run.jobs[0].background.is_none());
    assert_eq!(run.jobs[0].importance_map, vec![255; 4]);
    // header, then straight the frame's control extension: no loop extension
    assert_eq!(&run.bytes[..19], &HEADER_2X2);
    assert_eq!(&run.bytes[19..21], &[0x21, 0xF9]);
    assert_eq!(*run.bytes.last().unwrap(), 0x3B);
    let (repeat, shown) = decode(&run.bytes);
    assert_eq!(repeat, gif::Repeat::Finite(0));
    assert_eq!(shown.len(), 1);
    assert_eq!((shown[0].0, shown[0].1, shown[0].2), (10, 2, 2));
    assert_eq!(shown[0].3, vec![RED; 4]);
}

#[test]
fn first_frame_is_quantized_at_full_quality_whatever_the_settings() {
    let run = encode(settings(1, true), vec![(0, solid(4, 4, BLUE), 1), (1, solid(4, 4, RED), 1)])
        .unwrap();
    assert_eq!(run.jobs[0].quality, 100);
    assert_eq!(run.jobs[1].quality, 1);
}

#[test]
fn two_identical_frames_leave_the_second_without_weight() {
    let mut pixels = vec![RED; 16];
    for p in pixels.iter_mut().skip(8) {
        *p = BLUE;
    }
    let image = Image::new(pixels, 4, 4).unwrap();
    let run = encode(settings(50, false), vec![(0, image.clone(), 5), (1, image, 7)]).unwrap();
    assert_eq!(run.frames.len(), 2);
    assert_eq!(run.jobs[0].importance_map, vec![255; 16]);
    assert_eq!(run.jobs[1].importance_map, vec![0; 16]);
    let f = &run.frames[1];
    assert_eq!((f.width, f.height, f.delay), (4, 4, 7));
    let (_, shown) = decode(&run.bytes);
    assert_eq!(shown.len(), 2);
    assert_eq!((shown[1].0, shown[1].1, shown[1].2), (7, 4, 4));
    assert_eq!(shown[1].3, shown[0].3);
}

#[test]
fn frames_submitted_in_reverse_come_out_in_order() {
    let run =
        encode(settings(90, true), vec![(1, solid(3, 3, GREEN), 22), (0, solid(3, 3, RED), 11)])
            .unwrap();
    assert_eq!(run.frames.len(), 2);
    assert_eq!(run.frames[0].delay, 11);
    assert_eq!(run.frames[1].delay, 22);
    assert_eq!(run.jobs[0].pixels, vec![RED; 9]);
    assert_eq!(run.jobs[1].pixels, vec![GREEN; 9]);
    let (_, shown) = decode(&run.bytes);
    assert_eq!(shown[0].3, vec![RED; 9]);
    assert_eq!(shown[1].3, vec![GREEN; 9]);
}

#[test]
fn frame_of_another_size_is_refused() {
    let err = encode(settings(80, false), vec![(0, solid(8, 8, RED), 1), (1, solid(8, 4, RED), 1)])
        .err()
        .unwrap();
    assert_eq!(
        err,
        EncodeError::WrongSize { frame: 2, width: 8, height: 4, expected_width: 8, expected_height: 8 }
    );
    assert_eq!(err.message(), "Frame 2 has wrong size (8×4, expected 8×8)");
}

#[test]
fn third_frame_of_another_size_is_named_frame_three() {
    let err = encode(
        settings(80, false),
        vec![(0, solid(5, 5, RED), 1), (1, solid(5, 5, BLUE), 1), (2, solid(6, 5, BLUE), 1)],
    )
    .err()
    .unwrap();
    assert_eq!(err.message(), "Frame 3 has wrong size (6×5, expected 5×5)");
}

#[test]
fn no_frames_is_an_error() {
    let err = encode(settings(80, false), Vec::new()).err().unwrap();
    assert_eq!(err, EncodeError::NoFrames);
    assert_eq!(err.message(), "Found no usable frames to encode");
}

#[test]
fn ten_solid_frames_loop_forever() {
    let colours = [RED, GREEN, BLUE];
    let submissions: Vec<_> = (0..10).map(|i| (i, solid(6, 6, colours[i % 3]), 3 + i as u16)).collect();
    let run = encode(settings(90, false), submissions).unwrap();
    assert_eq!(run.frames.len(), 10);
    assert_eq!(run.writes, 10);
    assert_eq!(&run.bytes[19..38], &LOOP);
    assert_eq!(&run.bytes[38..40], &[0x21, 0xF9]);
    for (i, f) in run.frames.iter().enumerate() {
        assert_eq!(f.delay, 3 + i as u16);
        let c = colours[i % 3];
        assert!(f.palette.iter().any(|p| (p.r, p.g, p.b) == (c.r, c.g, c.b) && p.a != 0));
        assert!(f.palette.iter().any(|p| p.a == 0));
        assert!(f.palette.len() <= 256);
    }
    let (repeat, shown) = decode(&run.bytes);
    assert_eq!(repeat, gif::Repeat::Infinite);
    assert_eq!(shown.len(), 10);
    for (i, s) in shown.iter().enumerate() {
        assert_eq!(s.0, 3 + i as u16);
        assert_eq!(s.3, vec![colours[i % 3]; 36]);
    }
}

#[test]
fn loop_extension_comes_once_and_before_the_first_frame() {
    let frames = vec![(0, solid(2, 2, RED), 1), (1, solid(2, 2, BLUE), 1), (2, solid(2, 2, RED), 1)];
    let looping = encode(settings(80, false), frames.clone()).unwrap().bytes;
    let once = encode(settings(80, true), frames).unwrap().bytes;
    let count = |bytes: &[u8]| bytes.windows(11).filter(|w| w == b"NETSCAPE2.0").count();
    assert_eq!(count(&looping), 1);
    assert_eq!(count(&once), 0);
    assert_eq!(&looping[..19], &HEADER_2X2);
    assert_eq!(&looping[19..38], &LOOP);
    assert_eq!(looping.len(), once.len() + 19);
    assert_eq!(&looping[38..], &once[19..]);
}

#[test]
fn background_of_each_job_is_what_a_decoder_shows() {
    let mut a = vec![RED; 25];
    a[3] = BLUE;
    let mut b = vec![RED; 25];
    b[12] = GREEN;
    let mut c = vec![BLUE; 25];
    c[0] = Rgba { r: 9, g: 9, b: 9, a: 0 };
    let frames = vec![
        (0, Image::new(a, 5, 5).unwrap(), 1),
        (1, Image::new(b, 5, 5).unwrap(), 1),
        (2, Image::new(c, 5, 5).unwrap(), 1),
    ];
    let run = encode(settings(70, false), frames).unwrap();
    let (_, shown) = decode(&run.bytes);
    assert_eq!(shown.len(), 3);
    assert!(run.jobs[0].background.is_none());
    assert_eq!(run.jobs[1].background.as_ref().unwrap(), &shown[0].3);
    assert_eq!(run.jobs[2].background.as_ref().unwrap(), &shown[1].3);
}

#[test]
fn screen_keeps_what_a_transparent_index_covers() {
    let mut q = Quantizer::new(settings(80, true));
    let raw = |c| Some(RawFrame { image: solid(2, 1, c), delay: 1 });
    assert!(q.advance(raw(RED)).unwrap().is_none());
    let job = q.advance(raw(BLUE)).unwrap().unwrap();
    assert_eq!(job.pixels, vec![RED; 2]);
    let clear = Rgba { r: 0, g: 0, b: 0, a: 0 };
    let first = q.complete(vec![Rgba { r: 250, g: 1, b: 2, a: 77 }, clear], vec![0, 0]).unwrap();
    assert_eq!(first.transparent, Some(1));
    let job = q.advance(raw(GREEN)).unwrap().unwrap();
    let drawn = Rgba { r: 250, g: 1, b: 2, a: 255 };
    assert_eq!(job.background, Some(vec![drawn; 2]));
    // index 0 is the transparent slot now, index 1 draws
    let second = q.complete(vec![clear, GREEN], vec![0, 1]).unwrap();
    assert_eq!(second.transparent, Some(0));
    let job = q.advance(None).unwrap().unwrap();
    assert_eq!(job.background, Some(vec![drawn, GREEN]));
    let third = q.complete(vec![BLUE], vec![0, 0]).unwrap();
    assert_eq!(third.transparent, None);
    assert!(q.has_ended());
    assert_eq!(q.frames_done(), 3);
    assert!(q.advance(None).unwrap().is_none());
}

#[test]
fn last_frame_keeps_the_weights_of_the_frame_before() {
    let mut q = Quantizer::new(settings(100, true));
    let raw = |c| Some(RawFrame { image: solid(1, 1, c), delay: 1 });
    assert!(q.advance(raw(Rgba { r: 0, g: 0, b: 0, a: 255 })).unwrap().is_none());
    // the successor differs by 48² = 2304: weight 254
    let job = q.advance(raw(Rgba { r: 0, g: 0, b: 48, a: 255 })).unwrap().unwrap();
    assert_eq!(job.importance_map, vec![254]);
    q.complete(vec![Rgba { r: 0, g: 0, b: 0, a: 255 }], vec![0]).unwrap();
    // no successor: 254 is kept, then cut by the screen: 2304 / 32 = 72, 72² > 256
    let job = q.advance(None).unwrap().unwrap();
    assert_eq!(job.importance_map, vec![254]);
    assert_eq!(job.quality, 100);
}

#[test]
fn job_carries_the_settings() {
    let fast = Settings { width: None, height: None, quality: 33, once: false, fast: true };
    let mut q = Quantizer::new(fast);
    let raw = |c| Some(RawFrame { image: solid(2, 2, c), delay: 1 });
    q.advance(raw(RED)).unwrap();
    let job = q.advance(raw(RED)).unwrap().unwrap();
    assert_eq!(job.speed, Some(10));
    assert_eq!(job.quality, 100);
    assert_eq!(job.fixed_color, Rgba { r: 0, g: 0, b: 0, a: 0 });
    assert_eq!(job.dither_percent, 50);
    assert_eq!(job.min_quality, 0);
    assert_eq!(job.gamma_percent, 0);
    assert_eq!((job.width, job.height), (2, 2));
    q.complete(vec![RED], vec![0; 4]).unwrap();
    let job = q.advance(None).unwrap().unwrap();
    assert_eq!(job.quality, 33);
    let slow = Quantizer::new(settings(33, false));
    assert!(!slow.is_busy());
    let mut slow = slow;
    slow.advance(raw(RED)).unwrap();
    assert_eq!(slow.advance(None).unwrap().unwrap().speed, None);
}

#[test]
fn kernel_result_of_the_wrong_shape_is_refused() {
    let raw = |c| Some(RawFrame { image: solid(2, 2, c), delay: 1 });
    let mut q = Quantizer::new(settings(80, true));
    q.advance(raw(RED)).unwrap();
    q.advance(None).unwrap().unwrap();
    assert_eq!(q.complete(vec![RED], vec![0; 3]).err(), Some(EncodeError::Quantizer));
    assert!(q.has_ended());
    let mut q = Quantizer::new(settings(80, true));
    q.advance(raw(RED)).unwrap();
    q.advance(None).unwrap().unwrap();
    assert_eq!(q.complete(vec![RED; 257], vec![0; 4]).err(), Some(EncodeError::Quantizer));
    for (palette, indices) in [(Vec::new(), vec![0u8; 4]), (vec![RED], vec![0, 0, 1, 0]), (vec![RED; 3], vec![0, 1, 2, 3])] {
        let mut q = Quantizer::new(settings(80, true));
        q.advance(raw(RED)).unwrap();
        q.advance(None).unwrap().unwrap();
        assert_eq!(q.complete(palette, indices).err(), Some(EncodeError::Quantizer));
        assert_eq!(q.frames_done(), 0);
    }
}

#[test]
fn every_frame_given_out_points_into_its_palette() {
    let mut pixels = vec![RED; 16];
    pixels[5] = GREEN;
    pixels[9] = BLUE;
    let image = Image::new(pixels, 4, 4).unwrap();
    let run = encode(settings(80, true), vec![(0, image, 1), (1, solid(4, 4, GREEN), 1)]).unwrap();
    for f in &run.frames {
        assert!(!f.palette.is_empty() && f.palette.len() <= 256);
        assert_eq!(f.indices.len(), 16);
        assert!(f.indices.iter().all(|i| usize::from(*i) < f.palette.len()));
    }
}

#[test]
fn strided_frames_are_read_without_their_padding() {
    let pad = Rgba { r: 1, g: 2, b: 3, a: 4 };
    let pixels = vec![RED, RED, pad, BLUE, BLUE, pad];
    let image = Image::new_stride(pixels, 2, 2, 3).unwrap();
    let mut q = Quantizer::new(settings(80, true));
    q.advance(Some(RawFrame { image, delay: 1 })).unwrap();
    let job = q.advance(None).unwrap().unwrap();
    assert_eq!(job.pixels, vec![RED, RED, BLUE, BLUE]);
}

#[test]
fn writer_refuses_frames_too_large_for_the_format() {
    let mut w = FrameWriter::new(settings(80, true));
    let frame = GifFrame {
        width: 65536,
        height: 1,
        palette: vec![RED],
        indices: vec![0; 65536],
        transparent: None,
        delay: 1,
    };
    assert_eq!(w.write(&frame).err(), Some(EncodeError::Encoder));
    assert!(w.has_failed());
    assert_eq!(w.finish().err(), Some(EncodeError::Encoder));
}

#[test]
fn writer_without_frames_writes_nothing() {
    let mut w = FrameWriter::new(settings(80, false));
    assert_eq!(w.finish().unwrap(), Vec::<u8>::new());
    assert!(w.has_finished());
}

#[test]
fn writer_puts_size_and_delay_into_the_stream() {
    let mut w = FrameWriter::new(settings(80, true));
    let frame = GifFrame {
        width: 258,
        height: 1,
        palette: vec![RED, Rgba { r: 0, g: 0, b: 0, a: 0 }],
        indices: vec![0; 258],
        transparent: Some(1),
        delay: 0x1234,
    };
    let bytes = w.write(&frame).unwrap();
    assert_eq!(&bytes[..6], b"GIF89a");
    assert_eq!(&bytes[6..10], &[2, 1, 1, 0]);
    // control extension: flags (keep, transparent), delay, transparent index
    assert_eq!(&bytes[19..27], &[0x21, 0xF9, 4, 0b0000_0101, 0x34, 0x12, 1, 0]);
    // image descriptor: offset (0, 0), size, local palette of 2 entries
    assert_eq!(&bytes[27..37], &[0x2C, 0, 0, 0, 0, 2, 1, 1, 0, 0x80]);
    assert_eq!(&bytes[37..43], &[255, 0, 0, 0, 0, 0]);
    let second = w.write(&frame).unwrap();
    assert_eq!(&second[..], &bytes[19..]);
    assert_eq!(w.finish().unwrap(), vec![0x3B]);
}

#[test]
fn screen_is_blank_until_something_is_drawn() {
    let mut q = Quantizer::new(settings(80, true));
    let raw = |c| Some(RawFrame { image: solid(2, 2, c), delay: 1 });
    q.advance(raw(RED)).unwrap();
    q.advance(raw(RED)).unwrap().unwrap();
    let clear = Rgba { r: 0, g: 0, b: 0, a: 0 };
    // every pixel points at the transparent slot: nothing is drawn
    q.complete(vec![clear, RED], vec![0; 4]).unwrap();
    let job = q.advance(None).unwrap().unwrap();
    assert_eq!(job.background, Some(vec![clear; 4]));
    // a blank screen is different from any frame: no weight is taken
    assert_eq!(job.importance_map, vec![255; 4]);
}

#[test]
fn every_frame_is_kept_at_the_origin_and_not_interlaced() {
    let frames = vec![(0, solid(3, 2, RED), 4), (1, solid(3, 2, BLUE), 5)];
    let run = encode(settings(80, false), frames).unwrap();
    let mut options = gif::DecodeOptions::new();
    options.set_color_output(gif::ColorOutput::Indexed);
    let mut decoder = options.read_info(&run.bytes[..]).unwrap();
    let mut seen = 0;
    while let Some(f) = decoder.read_next_frame().unwrap() {
        assert_eq!(f.dispose, gif::DisposalMethod::Keep);
        assert!(!f.interlaced);
        assert!(!f.needs_user_input);
        assert_eq!((f.left, f.top, f.width, f.height), (0, 0, 3, 2));
        assert_eq!(f.delay, 4 + seen);
        assert_eq!(f.transparent, run.frames[seen as usize].transparent);
        assert_eq!(&f.buffer[..], &run.frames[seen as usize].indices[..]);
        seen += 1;
    }
    assert_eq!(seen, 2);
}

#[test]
fn quantized_frames_are_valid() {
    let run = encode(settings(80, true), vec![(0, solid(2, 2, RED), 1)]).unwrap();
    assert!(run.frames[0].is_valid());
    let mut broken = run.frames[0].clone();
    broken.indices.pop();
    assert!(!broken.is_valid());
    let mut broken = run.frames[0].clone();
    broken.transparent = Some(200);
    assert!(!broken.is_valid());
    let mut broken = run.frames[0].clone();
    broken.palette = vec![RED; 257];
    assert!(!broken.is_valid());
}

#[test]
fn writer_takes_every_valid_frame_that_fits_the_format() {
    let mut w = FrameWriter::new(settings(80, true));
    for palette_len in [1usize, 2, 3, 255, 256] {
        let frame = GifFrame {
            width: 2,
            height: 1,
            palette: vec![RED; palette_len],
            indices: vec![0; 2],
            transparent: None,
            delay: 1,
        };
        assert!(frame.is_valid());
        assert!(w.write(&frame).is_ok());
    }
    assert_eq!(w.finish(), Ok(vec![0x3B]));
    assert_eq!(w.finish(), Ok(Vec::new()));
}
