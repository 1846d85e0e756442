//! The reader contract behind an indirection boundary: callers may
//! hold "some extended reader" without knowing the concrete decoding
//! strategy, and a boxed reader forwards every operation with identical
//! semantics, the non-consuming guarantee of look-ahead included.

use vstd::prelude::*;

use crate::line::{Error, FramingError, HandleProgress, Line, MessageKind, Protocol};
use crate::reader::{
    data_result_matches, line_result_matches, spec_peek, spec_readline, spec_reset,
    spec_set_handler, Reader, ReaderState,
};

verus! {

/// Raw access to the framed stream: one structural line per read,
/// terminal markers included, under the stop rules in force.
pub trait ReadlineBufRead {
    /// The abstract reader state the contracts speak of.
    spec fn state(&self) -> ReaderState;

    /// The implementation's internal invariant.
    spec fn inv(&self) -> bool;

    /// Read the next structural line; `None` exactly when the reader
    /// has already stopped, stops now at a marker of the current
    /// rules, or the stream has ended — as [`spec_readline`] states.
    fn readline(&mut self) -> (r: Option<Result<Line, FramingError>>)
        requires
            old(self).inv(),
        ensures
            final (self).inv(),
            final (self).state() == spec_readline(old(self).state()).0,
            line_result_matches(r, spec_readline(old(self).state()).1),
    ;
}

/// The extended reader contract: look-ahead without consumption,
/// progress-handler installation, termination reporting and
/// protocol-version-aware reset, over the same abstract state as
/// [`ReadlineBufRead`].
pub trait ExtendedBufRead: ReadlineBufRead {
    /// Install or clear the progress handler, dropping the previous
    /// one; takes effect on the next line processed.
    fn set_progress_handler(&mut self, handler: Option<HandleProgress>)
        requires
            old(self).inv(),
        ensures
            final (self).inv(),
            final (self).state() == spec_set_handler(old(self).state(), handler),
    ;

    /// The next primary payload line, not consumed: repeated calls
    /// without an intervening consuming read return identical payload,
    /// and `None` is returned once the reader has stopped — as
    /// [`spec_peek`] states.
    fn peek_data_line(&mut self) -> (r: Option<Result<Vec<u8>, Error>>)
        requires
            old(self).inv(),
        ensures
            final (self).inv(),
            final (self).state() == spec_peek(old(self).state()).0,
            data_result_matches(r, spec_peek(old(self).state()).1),
    ;

    /// Allow reading past a previous stop, with the stop rules of
    /// `version`: under `V1` only flush ends the next segment, under
    /// `V2` delimiter and flush do.
    fn reset(&mut self, version: Protocol)
        requires
            old(self).inv(),
        ensures
            final (self).inv(),
            final (self).state() == spec_reset(old(self).state(), version),
    ;

    /// The kind of marker at which the reader stopped, or `None`.
    fn stopped_at(&self) -> (r: Option<MessageKind>)
        ensures
            r == self.state().stopped,
    ;
}

impl ReadlineBufRead for Reader {
    open spec fn state(&self) -> ReaderState {
        self@
    }

    open spec fn inv(&self) -> bool {
        self.wf()
    }

    fn readline(&mut self) -> (r: Option<Result<Line, FramingError>>) {
        self.readline()
    }
}

impl ExtendedBufRead for Reader {
    fn set_progress_handler(&mut self, handler: Option<HandleProgress>) {
        self.set_progress_handler(handler)
    }

    fn peek_data_line(&mut self) -> (r: Option<Result<Vec<u8>, Error>>) {
        self.peek_data_line()
    }

    fn reset(&mut self, version: Protocol) {
        self.reset(version)
    }

    fn stopped_at(&self) -> (r: Option<MessageKind>) {
        self.stopped_at()
    }
}

impl<T: ReadlineBufRead> ReadlineBufRead for Box<T> {
    open spec fn state(&self) -> ReaderState {
        (**self).state()
    }

    open spec fn inv(&self) -> bool {
        (**self).inv()
    }

    fn readline(&mut self) -> (r: Option<Result<Line, FramingError>>) {
        (**self).readline()
    }
}

impl<T: ExtendedBufRead> ExtendedBufRead for Box<T> {
    fn set_progress_handler(&mut self, handler: Option<HandleProgress>) {
        (**self).set_progress_handler(handler)
    }

    fn peek_data_line(&mut self) -> (r: Option<Result<Vec<u8>, Error>>) {
        (**self).peek_data_line()
    }

    fn reset(&mut self, version: Protocol) {
        (**self).reset(version)
    }

    fn stopped_at(&self) -> (r: Option<MessageKind>) {
        (**self).stopped_at()
    }
}

} // verus!
