//! What can go wrong while frames are encoded, and how it is reported.

use vstd::prelude::*;
use vstd::string::*;

verus! {

/// Why an encode was given up. Nothing is retried: the first error ends the
/// whole operation.
#[derive(Clone, Debug, PartialEq, Eq)]
pub enum EncodeError {
    /// The input ended before it gave a single frame.
    NoFrames,
    /// A frame is not as large as the frame before it. `frame` counts the
    /// frames from 1.
    WrongSize { frame: usize, width: usize, height: usize, expected_width: usize, expected_height: usize },
    /// The palette kernel failed, or what it gave is no palette-indexed
    /// image of the frame.
    Quantizer,
    /// The frame encoder refused a block.
    Encoder,
    /// The resizer refused the target size.
    Resize,
    /// The image data could not be decoded. The cause is the decoder's
    /// error code; there is none where the decoder gave what is no image.
    Decode { cause: Option<u32> },
    /// The file at `path` could not be loaded: it does not decode to an
    /// image. The cause is that of `Decode`.
    Load { path: String, cause: Option<u32> },
    /// The receiving end of a queue is gone.
    QueueClosed,
    /// The queue holds as many frames as it may: the consumer has to take
    /// some first.
    QueueFull,
}

/// The character for one decimal digit.
pub open spec fn digit(d: int) -> char {
    if d == 0 {
        '0'
    } else if d == 1 {
        '1'
    } else if d == 2 {
        '2'
    } else if d == 3 {
        '3'
    } else if d == 4 {
        '4'
    } else if d == 5 {
        '5'
    } else if d == 6 {
        '6'
    } else if d == 7 {
        '7'
    } else if d == 8 {
        '8'
    } else {
        '9'
    }
}

/// A number in decimal, without leading zeros.
pub open spec fn decimal(n: nat) -> Seq<char>
    decreases n,
{
    if n < 10 {
        seq![digit(n as int)]
    } else {
        decimal(n / 10).push(digit((n % 10) as int))
    }
}

/// A size as it is written in messages: width, a multiplication sign,
/// height.
pub open spec fn size_text(width: nat, height: nat) -> Seq<char> {
    decimal(width) + "×"@ + decimal(height)
}

/// The message for a file that could not be loaded: `Can't load ` and the
/// path.
pub open spec fn load_text(path: Seq<char>) -> Seq<char> {
    "Can't load "@ + path
}

/// The message for each error.
pub open spec fn message_text(e: EncodeError) -> Seq<char> {
    match e {
        EncodeError::NoFrames => "Found no usable frames to encode"@,
        EncodeError::WrongSize { frame, width, height, expected_width, expected_height } => "Frame "@
            + decimal(frame as nat) + " has wrong size ("@ + size_text(width as nat, height as nat)
            + ", expected "@ + size_text(expected_width as nat, expected_height as nat) + ")"@,
        EncodeError::Quantizer => "Quantization failed"@,
        EncodeError::Encoder => "Can't write the frame"@,
        EncodeError::Resize => "Can't resize the frame"@,
        EncodeError::Decode { cause } => "Can't decode the image"@,
        EncodeError::Load { path, cause } => load_text(path@),
        EncodeError::QueueClosed => "The other end of the queue is gone"@,
        EncodeError::QueueFull => "The queue is full"@,
    }
}

/// The text of one decimal digit.
fn digit_str(d: usize) -> (s: &'static str)
    requires
        d < 10,
    ensures
        s@ == seq![digit(d as int)],
{
    proof {
        reveal_strlit("0");
        reveal_strlit("1");
        reveal_strlit("2");
        reveal_strlit("3");
        reveal_strlit("4");
        reveal_strlit("5");
        reveal_strlit("6");
        reveal_strlit("7");
        reveal_strlit("8");
        reveal_strlit("9");
    }
    let s = if d == 0 {
        "0"
    } else if d == 1 {
        "1"
    } else if d == 2 {
        "2"
    } else if d == 3 {
        "3"
    } else if d == 4 {
        "4"
    } else if d == 5 {
        "5"
    } else if d == 6 {
        "6"
    } else if d == 7 {
        "7"
    } else if d == 8 {
        "8"
    } else {
        "9"
    };
    assert(s@ =~= seq![digit(d as int)]);
    s
}

/// Appends a number in decimal.
fn push_decimal(text: &mut String, n: usize)
    ensures
        final(text)@ == old(text)@ + decimal(n as nat),
    decreases n,
{
    if n >= 10 {
        push_decimal(text, n / 10);
    }
    text.append(digit_str(n % 10));
    proof {
        assert(final(text)@ =~= old(text)@ + decimal(n as nat));
    }
}

/// Appends a size: width, a multiplication sign, height.
fn push_size(text: &mut String, width: usize, height: usize)
    ensures
        final(text)@ == old(text)@ + size_text(width as nat, height as nat),
{
    push_decimal(text, width);
    text.append("×");
    push_decimal(text, height);
    proof {
        assert(final(text)@ =~= old(text)@ + size_text(width as nat, height as nat));
    }
}

/// The message for a file that could not be loaded, from the path as it is
/// shown.
pub fn load_message(path: &str) -> (text: String)
    ensures
        text@ == load_text(path@),
{
    let mut text = String::from_str("Can't load ");
    text.append(path);
    text
}

impl EncodeError {
    /// The message for this error.
    pub fn message(&self) -> (text: String)
        ensures
            text@ == message_text(*self),
    {
        match self {
            EncodeError::NoFrames => String::from_str("Found no usable frames to encode"),
            EncodeError::WrongSize { frame, width, height, expected_width, expected_height } => {
                let mut text = String::from_str("Frame ");
                push_decimal(&mut text, *frame);
                text.append(" has wrong size (");
                push_size(&mut text, *width, *height);
                text.append(", expected ");
                push_size(&mut text, *expected_width, *expected_height);
                text.append(")");
                proof {
                    assert(text@ =~= message_text(*self));
                }
                text
            },
            EncodeError::Quantizer => String::from_str("Quantization failed"),
            EncodeError::Encoder => String::from_str("Can't write the frame"),
            EncodeError::Resize => String::from_str("Can't resize the frame"),
            EncodeError::Decode { cause } => String::from_str("Can't decode the image"),
            EncodeError::Load { path, cause } => load_message(path.as_str()),
            EncodeError::QueueClosed => String::from_str("The other end of the queue is gone"),
            EncodeError::QueueFull => String::from_str("The queue is full"),
        }
    }

    /// The decoder's error code behind this error, where it has one.
    pub open spec fn cause_of(self) -> Option<u32> {
        match self {
            EncodeError::Decode { cause } => cause,
            EncodeError::Load { path, cause } => cause,
            _ => None,
        }
    }

    /// The decoder's error code behind this error, where it has one.
    pub fn cause(&self) -> (code: Option<u32>)
        ensures
            code == self.cause_of(),
    {
        match self {
            EncodeError::Decode { cause } => *cause,
            EncodeError::Load { path, cause } => *cause,
            _ => None,
        }
    }

    /// This error once more, to report it again. An error that names a file
    /// comes back with the same path and cause.
    pub fn again(&self) -> (e: EncodeError)
        ensures
            !(self is Load) ==> e == *self,
            self is Load ==> e is Load,
            message_text(e) == message_text(*self),
            e.cause_of() == self.cause_of(),
    {
        match self {
            EncodeError::NoFrames => EncodeError::NoFrames,
            EncodeError::WrongSize { frame, width, height, expected_width, expected_height } => EncodeError::WrongSize {
                frame: *frame,
                width: *width,
                height: *height,
                expected_width: *expected_width,
                expected_height: *expected_height,
            },
            EncodeError::Quantizer => EncodeError::Quantizer,
            EncodeError::Encoder => EncodeError::Encoder,
            EncodeError::Resize => EncodeError::Resize,
            EncodeError::Decode { cause } => EncodeError::Decode { cause: *cause },
            EncodeError::Load { path, cause } => EncodeError::Load { path: String::from_str(path.as_str()), cause: *cause },
            EncodeError::QueueClosed => EncodeError::QueueClosed,
            EncodeError::QueueFull => EncodeError::QueueFull,
        }
    }
}

} // verus!
