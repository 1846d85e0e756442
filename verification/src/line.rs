//! The data model of the protocol stream: lines, terminal markers,
//! protocol versions, progress events and the error taxonomy.

use vstd::prelude::*;

verus! {

/// One decoded unit of the packet-line stream.  Only `Data` carries
/// payload; the other three variants are zero-length terminal markers.
#[derive(Debug, Clone)]
pub enum Line {
    /// A payload line (possibly carrying a side-band tag as its first byte).
    Data(Vec<u8>),
    /// The marker that ends a command segment.
    Flush,
    /// The marker that separates sections within a V2 segment.
    Delimiter,
    /// The marker that ends an entire exchange.
    ResponseEnd,
}

/// The mathematical image of a [`Line`], with payload bytes as a sequence.
pub enum LineModel {
    Data(Seq<u8>),
    Flush,
    Delimiter,
    ResponseEnd,
}

impl View for Line {
    type V = LineModel;

    open spec fn view(&self) -> LineModel {
        match self {
            Line::Data(d) => LineModel::Data(d@),
            Line::Flush => LineModel::Flush,
            Line::Delimiter => LineModel::Delimiter,
            Line::ResponseEnd => LineModel::ResponseEnd,
        }
    }
}

/// The kind of terminal marker at which reading stopped.
#[derive(Debug, Clone, Copy, PartialEq, Eq, Structural)]
pub enum MessageKind {
    /// Stopped at a flush marker.
    Flush,
    /// Stopped at a delimiter marker.
    Delimiter,
    /// Stopped at a response-end marker.
    ResponseEnd,
}

/// The protocol version, supplied at reset time.  It determines which
/// markers legally stop the next read segment: under `V1` only flush
/// stops reading, under `V2` both delimiter and flush do.
#[derive(Debug, Clone, Copy, PartialEq, Eq, Structural)]
pub enum Protocol {
    V1,
    V2,
}

/// A framing failure of the line decoder: the stream holds no
/// well-formed packet line at the current position.
#[derive(Debug, Clone)]
pub enum FramingError {
    /// The buffer ends before the line announced by its length prefix.
    Truncated {
        /// How many more bytes the decoder would need.
        needed: usize,
    },
    /// The bytes at the current position are not a valid packet line.
    Malformed {
        /// The decoder's description of the failure.
        message: String,
    },
}

/// The mathematical image of a [`FramingError`]; the human-readable
/// message of the malformed case carries no specified content.
pub enum FramingErrorModel {
    Truncated { needed: int },
    Malformed,
}

impl View for FramingError {
    type V = FramingErrorModel;

    open spec fn view(&self) -> FramingErrorModel {
        match self {
            FramingError::Truncated { needed } => (FramingErrorModel::Truncated {
                needed: *needed as int,
            }),
            FramingError::Malformed { .. } => FramingErrorModel::Malformed,
        }
    }
}

/// An error surfaced by the demultiplexed read path.
#[derive(Debug, Clone)]
pub enum Error {
    /// The line decoder failed; see [`FramingError`].
    Framing(FramingError),
    /// A payload line carried a side-band tag outside the recognized
    /// channels 1 (data), 2 (progress) and 3 (error).
    InvalidBand {
        /// The unrecognized leading byte.
        band: u8,
    },
    /// A terminal marker that does not stop reading under the current
    /// rules appeared where payload was expected.
    NonData,
}

/// The mathematical image of an [`Error`].
pub enum ErrorModel {
    Framing(FramingErrorModel),
    InvalidBand { band: u8 },
    NonData,
}

impl View for Error {
    type V = ErrorModel;

    open spec fn view(&self) -> ErrorModel {
        match self {
            Error::Framing(e) => ErrorModel::Framing(e@),
            Error::InvalidBand { band } => (ErrorModel::InvalidBand { band: *band }),
            Error::NonData => ErrorModel::NonData,
        }
    }
}

/// One notification delivered to the progress handler: progress text
/// (`is_error == false`) or error text (`is_error == true`), with a
/// single trailing newline already removed.
#[derive(Debug, Clone)]
pub struct ProgressEvent {
    /// Whether the text travelled on the error channel.
    pub is_error: bool,
    /// The text of the notification.
    pub text: Vec<u8>,
}

/// The mathematical image of a [`ProgressEvent`].
pub struct ProgressEventModel {
    pub is_error: bool,
    pub text: Seq<u8>,
}

impl View for ProgressEvent {
    type V = ProgressEventModel;

    open spec fn view(&self) -> ProgressEventModel {
        ProgressEventModel { is_error: self.is_error, text: self.text@ }
    }
}

/// The installed progress handler.  The reader runs synchronously, so
/// the callback of the embedding application cannot be stored here;
/// instead the handler records each notification in stream order, and
/// the application drains the events and forwards them to its callback
/// between reads.  Replacing the handler drops the previous one, and
/// with it any events not yet drained.
#[derive(Debug)]
pub struct HandleProgress {
    /// The recorded notifications, oldest first.
    pub events: Vec<ProgressEvent>,
}

impl HandleProgress {
    /// A fresh handler with no recorded events.
    pub fn new() -> (r: HandleProgress)
        ensures
            r.events@.len() == 0,
    {
        HandleProgress { events: Vec::new() }
    }
}

} // verus!
