//! The line-decoding boundary: an exact specification of the packet-line
//! framing, a trusted wrapper around the outside decoder, and a verified
//! pull source that turns a byte buffer into a stream of typed lines.
//!
//! A packet line is a four-byte hexadecimal length prefix followed by
//! payload.  The prefixes `0000`, `0001` and `0002` are the flush,
//! delimiter and response-end markers and carry nothing; any other
//! prefix names the total length of the line, prefix included, which
//! must be at least 5 and at most 65520.

use vstd::prelude::*;

use crate::line::{FramingError, FramingErrorModel, Line, LineModel};
use gix_packetline::decode::{streaming, Stream};
use gix_packetline::PacketLineRef;

verus! {

/// Whether `b` is an ASCII hexadecimal digit (either case).
pub open spec fn is_hex_digit(b: u8) -> bool {
    (48 <= b && b <= 57) || (97 <= b && b <= 102) || (65 <= b && b <= 70)
}

/// The value of the ASCII hexadecimal digit `b`.
pub open spec fn hex_val(b: u8) -> int {
    if 48 <= b && b <= 57 {
        b - 48
    } else if 97 <= b && b <= 102 {
        b - 97 + 10
    } else {
        b - 65 + 10
    }
}

/// The value of the four-digit hexadecimal length prefix of `data`.
pub open spec fn prefix_val(data: Seq<u8>) -> int {
    hex_val(data[0]) * 4096 + hex_val(data[1]) * 256 + hex_val(data[2]) * 16 + hex_val(data[3])
}

/// Whether the first four bytes of `data` are all hexadecimal digits.
pub open spec fn prefix_is_hex(data: Seq<u8>) -> bool {
    is_hex_digit(data[0]) && is_hex_digit(data[1]) && is_hex_digit(data[2]) && is_hex_digit(
        data[3],
    )
}

/// Whether `data` starts with the literal marker prefix `0 0 0 last`.
pub open spec fn has_marker_prefix(data: Seq<u8>, last: u8) -> bool {
    data[0] == 48 && data[1] == 48 && data[2] == 48 && data[3] == last
}

/// The largest length a packet line may announce, prefix included.
pub const MAX_LINE_LEN: usize = 65520;

/// What decoding one packet line from the front of a buffer yields.
pub enum StepModel {
    /// A complete line; `consumed` bytes of the buffer belong to it.
    Line { line: LineModel, consumed: int },
    /// The buffer ends before the line does; `needed` more bytes would
    /// be required.
    Incomplete { needed: int },
    /// The front of the buffer is not a valid packet line.
    Malformed,
}

/// The exact decoding of one packet line from the front of `data`.
pub open spec fn step_of(data: Seq<u8>) -> StepModel {
    if data.len() < 4 {
        StepModel::Incomplete { needed: 4 - data.len() }
    } else if has_marker_prefix(data, 48) {
        StepModel::Line { line: LineModel::Flush, consumed: 4 }
    } else if has_marker_prefix(data, 49) {
        StepModel::Line { line: LineModel::Delimiter, consumed: 4 }
    } else if has_marker_prefix(data, 50) {
        StepModel::Line { line: LineModel::ResponseEnd, consumed: 4 }
    } else if !prefix_is_hex(data) {
        StepModel::Malformed
    } else {
        let n = prefix_val(data);
        if n == 3 || n == 4 {
            StepModel::Malformed
        } else if n > MAX_LINE_LEN {
            StepModel::Malformed
        } else if data.len() < n {
            StepModel::Incomplete { needed: n - data.len() }
        } else {
            StepModel::Line { line: LineModel::Data(data.subrange(4, n)), consumed: n }
        }
    }
}

/// The outcome of one call into the outside decoder.
pub enum Step {
    /// A complete line and the number of bytes it occupied.
    Line { line: Line, consumed: usize },
    /// The buffer ends before the line does.
    Incomplete { needed: usize },
    /// No valid packet line, with the decoder's description.
    Malformed { message: String },
}

impl View for Step {
    type V = StepModel;

    open spec fn view(&self) -> StepModel {
        match self {
            Step::Line { line, consumed } => (StepModel::Line {
                line: line@,
                consumed: *consumed as int,
            }),
            Step::Incomplete { needed } => (StepModel::Incomplete { needed: *needed as int }),
            Step::Malformed { .. } => StepModel::Malformed,
        }
    }
}

/// Relies on `gix_packetline::decode::streaming`: it decodes one packet
/// line from the front of `data` exactly as [`step_of`] states — the
/// literal prefixes `0000`/`0001`/`0002` are the three markers consuming
/// four bytes; any other four hexadecimal digits announce the total line
/// length, rejected when it is 3, 4 or above 65520; fewer bytes than a
/// prefix or an announced length means the line is incomplete.
#[verifier::external_body]
fn decode_step(data: &[u8]) -> (r: Step)
    ensures
        r@ == step_of(data@),
{
    match streaming(data) {
        Ok(Stream::Complete { line, bytes_consumed }) => Step::Line {
            line: match line {
                PacketLineRef::Data(d) => Line::Data(d.to_vec()),
                PacketLineRef::Flush => Line::Flush,
                PacketLineRef::Delimiter => Line::Delimiter,
                PacketLineRef::ResponseEnd => Line::ResponseEnd,
            },
            consumed: bytes_consumed,
        },
        Ok(Stream::Incomplete { bytes_needed }) => Step::Incomplete { needed: bytes_needed },
        Err(err) => Step::Malformed { message: err.to_string() },
    }
}

/// Bounds of a complete decoding step: a line consumes at least its
/// four-byte prefix, never more than the buffer holds, and a payload
/// line carries at least one byte.
pub proof fn lemma_step_bounds(data: Seq<u8>)
    ensures
        step_of(data) matches StepModel::Line { line, consumed } ==> {
            &&& 4 <= consumed <= data.len()
            &&& (line matches LineModel::Data(d) ==> d.len() >= 1)
        },
{
}

/// A pull source of typed lines: the in-memory byte stream together
/// with the position reached by the decoder.
pub struct LineDecoder {
    data: Vec<u8>,
    pos: usize,
}

impl LineDecoder {
    /// The decoder never moves past the end of its buffer.
    pub closed spec fn wf(&self) -> bool {
        self.pos <= self.data@.len()
    }

    /// The bytes not yet decoded.
    pub closed spec fn remaining(&self) -> Seq<u8> {
        self.data@.skip(self.pos as int)
    }

    /// A decoder positioned at the start of `data`.
    pub fn new(data: Vec<u8>) -> (r: LineDecoder)
        ensures
            r.wf(),
            r.remaining() == data@,
    {
        let r = LineDecoder { data, pos: 0 };
        proof {
            assert(r.remaining() =~= r.data@);
        }
        r
    }

    /// Decode the next line and consume its bytes.  Returns `None` at
    /// the natural end of the stream; a framing failure leaves the
    /// position unchanged, so the caller sees it again unless it gives
    /// the stream up.
    pub fn next_line(&mut self) -> (r: Option<Result<Line, FramingError>>)
        requires
            old(self).wf(),
        ensures
            final (self).wf(),
            ({
                let rem = old(self).remaining();
                if rem.len() == 0 {
                    &&& r is None
                    &&& final (self).remaining() == rem
                } else {
                    match step_of(rem) {
                        StepModel::Line { line, consumed } => {
                            &&& r matches Some(Ok(l)) && l@ == line
                            &&& final (self).remaining() == rem.skip(consumed)
                        },
                        StepModel::Incomplete { needed } => {
                            &&& r matches Some(Err(FramingError::Truncated { needed: k }))
                                && k == needed
                            &&& final (self).remaining() == rem
                        },
                        StepModel::Malformed => {
                            &&& r matches Some(Err(FramingError::Malformed { .. }))
                            &&& final (self).remaining() == rem
                        },
                    }
                }
            }),
    {
        if self.pos == self.data.len() {
            return None;
        }
        let tail = vstd::slice::slice_subrange(self.data.as_slice(), self.pos, self.data.len());
        proof {
            assert(tail@ =~= old(self).remaining());
            lemma_step_bounds(tail@);
        }
        match decode_step(tail) {
            Step::Line { line, consumed } => {
                self.pos = self.pos + consumed;
                proof {
                    assert(final (self).remaining() =~= old(self).remaining().skip(
                        consumed as int,
                    ));
                }
                Some(Ok(line))
            },
            Step::Incomplete { needed } => Some(Err(FramingError::Truncated { needed })),
            Step::Malformed { message } => Some(Err(FramingError::Malformed { message })),
        }
    }
}

/// One element of the decoded stream as a whole: a line, or the framing
/// failure that ends it.
pub enum StreamItem {
    Line(LineModel),
    Bad(FramingErrorModel),
}

/// The sequence of lines at the front of `data`, ending either when the
/// bytes run out or at the first framing failure.
pub open spec fn items_of(data: Seq<u8>) -> Seq<StreamItem>
    decreases data.len(),
{
    if data.len() == 0 {
        Seq::empty()
    } else {
        match step_of(data) {
            StepModel::Line { line, consumed } => {
                if 0 < consumed <= data.len() {
                    seq![StreamItem::Line(line)] + items_of(data.skip(consumed))
                } else {
                    Seq::empty()
                }
            },
            StepModel::Incomplete { needed } => seq![
                StreamItem::Bad(FramingErrorModel::Truncated { needed }),
            ],
            StepModel::Malformed => seq![StreamItem::Bad(FramingErrorModel::Malformed)],
        }
    }
}

} // verus!
