//! The side-band demultiplexer and the extended reader: termination
//! tracking, one-line look-ahead, progress routing and version-aware
//! reset, all specified by pure transition functions over an abstract
//! reader state and proved against them.

use vstd::prelude::*;

use crate::decode::{items_of, lemma_step_bounds, LineDecoder, StreamItem};
use crate::line::{
    Error, ErrorModel, FramingError, FramingErrorModel, HandleProgress, Line, LineModel,
    MessageKind, ProgressEvent, ProgressEventModel, Protocol,
};

verus! {

/// The abstract state of a reader: the stream items still ahead, the
/// marker at which reading stopped (if any), the stop rules in force,
/// whether side-band demultiplexing is active, and the notifications
/// recorded for the progress handler so far.
#[verifier::ext_equal]
pub struct ReaderState {
    /// The lines not yet consumed, ending at the first framing failure.
    pub upcoming: Seq<StreamItem>,
    /// The marker that stopped reading, or `None` while still reading.
    pub stopped: Option<MessageKind>,
    /// Whether a delimiter marker stops the current segment (flush
    /// always does).
    pub stop_delimiter: bool,
    /// Whether payload lines carry side-band channel tags.
    pub sideband: bool,
    /// The notifications recorded for the handler, oldest first.
    pub events: Seq<ProgressEventModel>,
}

/// Which markers stop a segment under `version`: a delimiter stops
/// only under `V2`; flush stops under both.
pub open spec fn stops_delimiter(version: Protocol) -> bool {
    version is V2
}

/// Whether the line `l` stops reading under the current rules.
pub open spec fn is_stop_line(stop_delimiter: bool, l: LineModel) -> bool {
    match l {
        LineModel::Flush => true,
        LineModel::Delimiter => stop_delimiter,
        _ => false,
    }
}

/// The termination kind of a terminal marker.  A payload line has no
/// kind: reaching this mapping with one would be an internal contract
/// violation, which the implementation rules out by proof instead of
/// coercing silently.
pub open spec fn marker_kind(l: LineModel) -> MessageKind {
    match l {
        LineModel::Flush => MessageKind::Flush,
        LineModel::Delimiter => MessageKind::Delimiter,
        LineModel::ResponseEnd => MessageKind::ResponseEnd,
        LineModel::Data(_) => arbitrary(),
    }
}

/// Side-band text with a single trailing newline removed, as it is
/// handed to the progress handler.
pub open spec fn trim_newline(s: Seq<u8>) -> Seq<u8> {
    if s.len() > 0 && s[s.len() - 1] == 10 {
        s.drop_last()
    } else {
        s
    }
}

/// The state after consuming the front line of the stream.
pub open spec fn consume(s: ReaderState) -> ReaderState {
    ReaderState { upcoming: s.upcoming.drop_first(), ..s }
}

/// The state after recording one notification for the handler.
pub open spec fn push_event(s: ReaderState, is_error: bool, text: Seq<u8>) -> ReaderState {
    ReaderState {
        events: s.events.push(ProgressEventModel { is_error, text: trim_newline(text) }),
        ..s
    }
}

/// What a raw structural read yields.
pub enum LineOutcome {
    /// No more lines: already stopped, stopped just now, or end of stream.
    Halt,
    /// The next structural line.
    Line(LineModel),
    /// A framing failure.
    Fail(FramingErrorModel),
}

/// The transition of `readline`: the next structural line, bypassing
/// side-band classification.  A stop marker under the current rules is
/// consumed, recorded, and ends reading; any other line — payload or
/// non-stop marker — is handed out unchanged.  A framing failure is
/// reported and not consumed.  After a stop, every call halts until a
/// reset.
pub open spec fn spec_readline(s: ReaderState) -> (ReaderState, LineOutcome) {
    if s.stopped is Some || s.upcoming.len() == 0 {
        (s, LineOutcome::Halt)
    } else {
        match s.upcoming[0] {
            StreamItem::Bad(e) => (s, LineOutcome::Fail(e)),
            StreamItem::Line(l) => {
                if is_stop_line(s.stop_delimiter, l) {
                    (
                        ReaderState {
                            upcoming: s.upcoming.drop_first(),
                            stopped: Some(marker_kind(l)),
                            ..s
                        },
                        LineOutcome::Halt,
                    )
                } else {
                    (consume(s), LineOutcome::Line(l))
                }
            },
        }
    }
}

/// What a demultiplexed read yields.
pub enum DataOutcome {
    /// No more payload: already stopped, stopped just now, or end of stream.
    Halt,
    /// The next primary payload bytes.
    Payload(Seq<u8>),
    /// A framing or side-band failure.
    Fail(ErrorModel),
}

/// The transition of the demultiplexer's consuming read: auxiliary
/// side-band lines are routed to the handler in stream order until a
/// primary payload line, a stop marker, a failure or the end of the
/// stream decides the outcome.  Without side-band mode every payload
/// line is primary.  A non-stop terminal marker where payload is
/// expected is an error, as is an unrecognized channel tag.
pub open spec fn spec_read_next(s: ReaderState) -> (ReaderState, DataOutcome)
    decreases s.upcoming.len(),
{
    if s.stopped is Some || s.upcoming.len() == 0 {
        (s, DataOutcome::Halt)
    } else {
        match s.upcoming[0] {
            StreamItem::Bad(e) => (s, DataOutcome::Fail(ErrorModel::Framing(e))),
            StreamItem::Line(l) => {
                if is_stop_line(s.stop_delimiter, l) {
                    (
                        ReaderState {
                            upcoming: s.upcoming.drop_first(),
                            stopped: Some(marker_kind(l)),
                            ..s
                        },
                        DataOutcome::Halt,
                    )
                } else {
                    match l {
                        LineModel::Data(d) => {
                            if !s.sideband {
                                (consume(s), DataOutcome::Payload(d))
                            } else if d.len() == 0 {
                                (consume(s), DataOutcome::Fail(ErrorModel::NonData))
                            } else if d[0] == 1 {
                                if d.len() == 1 {
                                    spec_read_next(consume(s))
                                } else {
                                    (consume(s), DataOutcome::Payload(d.skip(1)))
                                }
                            } else if d[0] == 2 {
                                spec_read_next(push_event(consume(s), false, d.skip(1)))
                            } else if d[0] == 3 {
                                spec_read_next(push_event(consume(s), true, d.skip(1)))
                            } else {
                                (consume(s), DataOutcome::Fail(ErrorModel::InvalidBand { band: d[0] }))
                            }
                        },
                        _ => (consume(s), DataOutcome::Fail(ErrorModel::NonData)),
                    }
                }
            },
        }
    }
}

/// The transition of the demultiplexer's look-ahead: it classifies and
/// routes exactly as [`spec_read_next`] does, but the line that decides
/// the outcome — the payload line, or the line in error — stays at the
/// front of the stream, so that an immediately repeated look-ahead
/// yields the same outcome and a consuming read still sees the line.
pub open spec fn spec_peek(s: ReaderState) -> (ReaderState, DataOutcome)
    decreases s.upcoming.len(),
{
    if s.stopped is Some || s.upcoming.len() == 0 {
        (s, DataOutcome::Halt)
    } else {
        match s.upcoming[0] {
            StreamItem::Bad(e) => (s, DataOutcome::Fail(ErrorModel::Framing(e))),
            StreamItem::Line(l) => {
                if is_stop_line(s.stop_delimiter, l) {
                    (
                        ReaderState {
                            upcoming: s.upcoming.drop_first(),
                            stopped: Some(marker_kind(l)),
                            ..s
                        },
                        DataOutcome::Halt,
                    )
                } else {
                    match l {
                        LineModel::Data(d) => {
                            if !s.sideband {
                                (s, DataOutcome::Payload(d))
                            } else if d.len() == 0 {
                                (s, DataOutcome::Fail(ErrorModel::NonData))
                            } else if d[0] == 1 {
                                if d.len() == 1 {
                                    spec_peek(consume(s))
                                } else {
                                    (s, DataOutcome::Payload(d.skip(1)))
                                }
                            } else if d[0] == 2 {
                                spec_peek(push_event(consume(s), false, d.skip(1)))
                            } else if d[0] == 3 {
                                spec_peek(push_event(consume(s), true, d.skip(1)))
                            } else {
                                (s, DataOutcome::Fail(ErrorModel::InvalidBand { band: d[0] }))
                            }
                        },
                        _ => (s, DataOutcome::Fail(ErrorModel::NonData)),
                    }
                }
            },
        }
    }
}

/// The transition of `reset`: the termination state is cleared and the
/// stop rules are set from `version`; the position in the stream, the
/// side-band mode and the recorded events are untouched.
pub open spec fn spec_reset(s: ReaderState, version: Protocol) -> ReaderState {
    ReaderState { stopped: None, stop_delimiter: stops_delimiter(version), ..s }
}

/// The events a handler value carries.
pub open spec fn handler_events(h: Option<HandleProgress>) -> Seq<ProgressEventModel> {
    match h {
        Some(hp) => hp.events@.map_values(|e: ProgressEvent| e@),
        None => Seq::empty(),
    }
}

/// The transition of `set_progress_handler`: side-band mode follows the
/// presence of a handler, and the recorded events become those the new
/// handler carries — the previous handler and its undrained events are
/// dropped.
pub open spec fn spec_set_handler(s: ReaderState, h: Option<HandleProgress>) -> ReaderState {
    ReaderState { sideband: h is Some, events: handler_events(h), ..s }
}

/// How an exec raw read result realizes a [`LineOutcome`].
pub open spec fn line_result_matches(
    r: Option<Result<Line, FramingError>>,
    out: LineOutcome,
) -> bool {
    match out {
        LineOutcome::Halt => r is None,
        LineOutcome::Line(l) => r matches Some(Ok(x)) && x@ == l,
        LineOutcome::Fail(e) => r matches Some(Err(x)) && x@ == e,
    }
}

/// How an exec demultiplexed read result realizes a [`DataOutcome`].
pub open spec fn data_result_matches(
    r: Option<Result<Vec<u8>, Error>>,
    out: DataOutcome,
) -> bool {
    match out {
        DataOutcome::Halt => r is None,
        DataOutcome::Payload(p) => r matches Some(Ok(x)) && x@ == p,
        DataOutcome::Fail(e) => r matches Some(Err(x)) && x@ == e,
    }
}

/// The extended buffered reader over an in-memory byte stream: it
/// decodes one framed line at a time through the line decoder,
/// demultiplexes side-band channels, buffers one decoded line for
/// look-ahead, tracks the marker that stopped reading, and resumes
/// past a stop under the rules of the protocol version given at reset.
pub struct Reader {
    source: LineDecoder,
    stop_delimiter: bool,
    stopped: Option<MessageKind>,
    peeked: Option<Line>,
    handler: Option<HandleProgress>,
}

impl View for Reader {
    type V = ReaderState;

    closed spec fn view(&self) -> ReaderState {
        ReaderState {
            upcoming: (match self.peeked {
                Some(l) => seq![StreamItem::Line(l@)],
                None => Seq::empty(),
            }) + items_of(self.source.remaining()),
            stopped: self.stopped,
            stop_delimiter: self.stop_delimiter,
            sideband: self.handler is Some,
            events: handler_events(self.handler),
        }
    }
}

impl Reader {
    /// The reader's internal invariant: the decoder is well formed and
    /// a buffered payload line is never empty (the framing forbids
    /// zero-length payload lines).
    pub closed spec fn wf(&self) -> bool {
        &&& self.source.wf()
        &&& match self.peeked {
            Some(Line::Data(d)) => d@.len() >= 1,
            _ => true,
        }
    }

    /// A reader over `data` with no handler installed and the stop
    /// rules of `version`.
    pub fn new(data: Vec<u8>, version: Protocol) -> (r: Reader)
        ensures
            r.wf(),
            r@ == (ReaderState {
                upcoming: items_of(data@),
                stopped: None::<MessageKind>,
                stop_delimiter: stops_delimiter(version),
                sideband: false,
                events: Seq::<ProgressEventModel>::empty(),
            }),
    {
        let stop_delimiter = match version {
            Protocol::V1 => false,
            Protocol::V2 => true,
        };
        let r = Reader {
            source: LineDecoder::new(data),
            stop_delimiter,
            stopped: None,
            peeked: None,
            handler: None,
        };
        proof {
            assert(r@.upcoming =~= items_of(data@));
        }
        r
    }

    /// The marker that stopped reading, or `None` while the reader has
    /// not stopped.  Pure: asking never changes the answer, so repeated
    /// calls return the same value until a reset intervenes.
    pub fn stopped_at(&self) -> (r: Option<MessageKind>)
        ensures
            r == self@.stopped,
    {
        self.stopped
    }

    /// Clear the termination state and set the stop rules of `version`,
    /// so that reading can resume past a stop: under `V1` only flush
    /// stops the next segment, under `V2` delimiter and flush do.
    pub fn reset(&mut self, version: Protocol)
        requires
            old(self).wf(),
        ensures
            final (self).wf(),
            final (self)@ == spec_reset(old(self)@, version),
    {
        self.stop_delimiter = match version {
            Protocol::V1 => false,
            Protocol::V2 => true,
        };
        self.stopped = None;
    }

    /// Install or clear the progress handler; replacing drops the
    /// previous handler immediately, together with any events it still
    /// carried.  Side-band demultiplexing is active exactly while a
    /// handler is installed.
    pub fn set_progress_handler(&mut self, handler: Option<HandleProgress>)
        requires
            old(self).wf(),
        ensures
            final (self).wf(),
            final (self)@ == spec_set_handler(old(self)@, handler),
    {
        self.handler = handler;
    }

    /// Hand out the notifications recorded so far, oldest first, and
    /// forget them; the embedding application forwards them to its
    /// callback.  Without an installed handler there is nothing to
    /// hand out.
    pub fn take_progress_events(&mut self) -> (r: Vec<ProgressEvent>)
        requires
            old(self).wf(),
        ensures
            final (self).wf(),
            r@.map_values(|e: ProgressEvent| e@) == old(self)@.events,
            final (self)@ == (ReaderState {
                events: Seq::<ProgressEventModel>::empty(),
                ..old(self)@
            }),
    {
        let mut taken: Vec<ProgressEvent> = Vec::new();
        proof {
            assert(taken@.map_values(|e: ProgressEvent| e@) =~= Seq::<ProgressEventModel>::empty());
        }
        match &mut self.handler {
            Some(h) => {
                core::mem::swap(&mut taken, &mut h.events);
                taken
            },
            None => taken,
        }
    }

    /// Whether `line` stops reading under the rules in force.
    fn is_stop(&self, line: &Line) -> (r: bool)
        ensures
            r == is_stop_line(self@.stop_delimiter, line@),
    {
        match line {
            Line::Flush => true,
            Line::Delimiter => self.stop_delimiter,
            _ => false,
        }
    }

    /// Make the front line of the stream available in the look-ahead
    /// slot, surfacing a framing failure without consuming anything.
    /// After a `None` answer the reader has stopped, or holds the next
    /// line, or the stream has ended.
    fn load(&mut self) -> (r: Option<FramingError>)
        requires
            old(self).wf(),
        ensures
            final (self).wf(),
            final (self)@ == old(self)@,
            match r {
                Some(e) => {
                    &&& final (self).stopped is None
                    &&& final (self).peeked is None
                    &&& final (self)@.upcoming.len() > 0
                    &&& final (self)@.upcoming[0] == StreamItem::Bad(e@)
                },
                None => {
                    ||| final (self).stopped is Some
                    ||| (final (self).peeked matches Some(l) && final (self)@.upcoming.len() > 0
                        && final (self)@.upcoming[0] == StreamItem::Line(l@))
                    ||| (final (self).peeked is None && final (self)@.upcoming.len() == 0)
                },
            },
    {
        if self.stopped.is_some() {
            return None;
        }
        match &self.peeked {
            Some(_) => {
                return None;
            },
            None => {},
        }
        let ghost rem = self.source.remaining();
        proof {
            lemma_step_bounds(rem);
        }
        match self.source.next_line() {
            None => {
                proof {
                    assert(final (self)@ =~= old(self)@);
                }
                None
            },
            Some(Ok(line)) => {
                self.peeked = Some(line);
                proof {
                    assert(self@.upcoming =~= old(self)@.upcoming);
                    assert(final (self)@ =~= old(self)@);
                }
                None
            },
            Some(Err(e)) => {
                proof {
                    assert(final (self)@ =~= old(self)@);
                }
                Some(e)
            },
        }
    }

    /// Read the next structural line, terminal markers included, past
    /// the side-band classification.  Returns `None` exactly when the
    /// reader has already stopped, stops now at a marker of the current
    /// rules, or the stream has ended; [`Reader::stopped_at`] then
    /// tells a stop from the end of the stream.
    pub fn readline(&mut self) -> (r: Option<Result<Line, FramingError>>)
        requires
            old(self).wf(),
        ensures
            final (self).wf(),
            final (self)@ == spec_readline(old(self)@).0,
            line_result_matches(r, spec_readline(old(self)@).1),
    {
        match self.load() {
            Some(e) => {
                return Some(Err(e));
            },
            None => {},
        }
        if self.stopped.is_some() {
            return None;
        }
        let prev = self.peeked.take();
        match prev {
            None => {
                proof {
                    assert(final (self)@ =~= old(self)@);
                }
                None
            },
            Some(line) => {
                proof {
                    assert(self@.upcoming =~= old(self)@.upcoming.drop_first());
                }
                if self.is_stop(&line) {
                    self.stopped = Some(message_kind(&line));
                    proof {
                        assert(final (self)@ =~= spec_readline(old(self)@).0);
                    }
                    None
                } else {
                    proof {
                        assert(final (self)@ =~= spec_readline(old(self)@).0);
                    }
                    Some(Ok(line))
                }
            },
        }
    }
}

impl Reader {
    /// Read the next primary payload line, demultiplexed: auxiliary
    /// side-band lines on the way are routed to the handler in stream
    /// order, so a payload line is never handed out ahead of the
    /// notifications that preceded it.  Returns `None` exactly when the
    /// reader has already stopped, stops now, or the stream has ended.
    pub fn read_next(&mut self) -> (r: Option<Result<Vec<u8>, Error>>)
        requires
            old(self).wf(),
        ensures
            final (self).wf(),
            final (self)@ == spec_read_next(old(self)@).0,
            data_result_matches(r, spec_read_next(old(self)@).1),
    {
        loop
            invariant
                self.wf(),
                spec_read_next(self@) == spec_read_next(old(self)@),
            decreases self@.upcoming.len(),
        {
            match self.load() {
                Some(e) => {
                    return Some(Err(Error::Framing(e)));
                },
                None => {},
            }
            if self.stopped.is_some() {
                return None;
            }
            let ghost s0 = self@;
            let prev = self.peeked.take();
            match prev {
                None => {
                    proof {
                        assert(final (self)@ =~= s0);
                    }
                    return None;
                },
                Some(line) => {
                    proof {
                        assert(self@.upcoming =~= s0.upcoming.drop_first());
                    }
                    if self.is_stop(&line) {
                        self.stopped = Some(message_kind(&line));
                        proof {
                            assert(final (self)@ =~= spec_read_next(s0).0);
                        }
                        return None;
                    }
                    match line {
                        Line::Data(d) => {
                            if self.handler.is_none() {
                                proof {
                                    assert(final (self)@ =~= spec_read_next(s0).0);
                                }
                                return Some(Ok(d));
                            }
                            let band = d[0];
                            if band == 1 {
                                if d.len() == 1 {
                                    proof {
                                        assert(self@ =~= consume(s0));
                                    }
                                } else {
                                    let out = copy_range(&d, 1, d.len());
                                    proof {
                                        assert(out@ =~= d@.skip(1));
                                        assert(final (self)@ =~= spec_read_next(s0).0);
                                    }
                                    return Some(Ok(out));
                                }
                            } else if band == 2 || band == 3 {
                                let text = band_text(&d);
                                let ev = ProgressEvent { is_error: band == 3, text };
                                match &mut self.handler {
                                    Some(h) => {
                                        let ghost es = h.events@;
                                        h.events.push(ev);
                                        proof {
                                            assert(h.events@.map_values(
                                                |e: ProgressEvent| e@,
                                            ) =~= es.map_values(|e: ProgressEvent| e@).push(ev@));
                                        }
                                    },
                                    None => {
                                        proof {
                                            assert(false);
                                        }
                                    },
                                }
                                proof {
                                    assert(self@ =~= push_event(consume(s0), band == 3, d@.skip(1)));
                                }
                            } else {
                                proof {
                                    assert(final (self)@ =~= spec_read_next(s0).0);
                                }
                                return Some(Err(Error::InvalidBand { band }));
                            }
                        },
                        _ => {
                            proof {
                                assert(final (self)@ =~= spec_read_next(s0).0);
                            }
                            return Some(Err(Error::NonData));
                        },
                    }
                },
            }
        }
    }

    /// Look at the next primary payload line without consuming it:
    /// auxiliary side-band lines on the way are routed to the handler
    /// exactly as a consuming read would route them, but the line that
    /// decides the outcome stays buffered, so repeated calls with no
    /// consuming read in between return identical payload, and a
    /// consuming read still sees the line.  Returns `None` exactly when
    /// the reader has already stopped, stops now, or the stream has
    /// ended.
    pub fn peek_data_line(&mut self) -> (r: Option<Result<Vec<u8>, Error>>)
        requires
            old(self).wf(),
        ensures
            final (self).wf(),
            final (self)@ == spec_peek(old(self)@).0,
            data_result_matches(r, spec_peek(old(self)@).1),
    {
        loop
            invariant
                self.wf(),
                spec_peek(self@) == spec_peek(old(self)@),
            decreases self@.upcoming.len(),
        {
            match self.load() {
                Some(e) => {
                    return Some(Err(Error::Framing(e)));
                },
                None => {},
            }
            if self.stopped.is_some() {
                return None;
            }
            let ghost s0 = self@;
            let prev = self.peeked.take();
            match prev {
                None => {
                    proof {
                        assert(final (self)@ =~= s0);
                    }
                    return None;
                },
                Some(line) => {
                    if self.is_stop(&line) {
                        self.stopped = Some(message_kind(&line));
                        proof {
                            assert(self@.upcoming =~= s0.upcoming.drop_first());
                            assert(final (self)@ =~= spec_peek(s0).0);
                        }
                        return None;
                    }
                    match line {
                        Line::Data(d) => {
                            if self.handler.is_none() {
                                let out = copy_range(&d, 0, d.len());
                                self.peeked = Some(Line::Data(d));
                                proof {
                                    assert(out@ =~= d@);
                                    assert(final (self)@ =~= s0);
                                }
                                return Some(Ok(out));
                            }
                            let band = d[0];
                            if band == 1 {
                                if d.len() == 1 {
                                    proof {
                                        assert(self@ =~= consume(s0));
                                    }
                                } else {
                                    let out = copy_range(&d, 1, d.len());
                                    self.peeked = Some(Line::Data(d));
                                    proof {
                                        assert(out@ =~= d@.skip(1));
                                        assert(final (self)@ =~= s0);
                                    }
                                    return Some(Ok(out));
                                }
                            } else if band == 2 || band == 3 {
                                let text = band_text(&d);
                                let ev = ProgressEvent { is_error: band == 3, text };
                                match &mut self.handler {
                                    Some(h) => {
                                        let ghost es = h.events@;
                                        h.events.push(ev);
                                        proof {
                                            assert(h.events@.map_values(
                                                |e: ProgressEvent| e@,
                                            ) =~= es.map_values(|e: ProgressEvent| e@).push(ev@));
                                        }
                                    },
                                    None => {
                                        proof {
                                            assert(false);
                                        }
                                    },
                                }
                                proof {
                                    assert(self@ =~= push_event(consume(s0), band == 3, d@.skip(1)));
                                }
                            } else {
                                self.peeked = Some(Line::Data(d));
                                proof {
                                    assert(final (self)@ =~= s0);
                                }
                                return Some(Err(Error::InvalidBand { band }));
                            }
                        },
                        other => {
                            self.peeked = Some(other);
                            proof {
                                assert(final (self)@ =~= s0);
                            }
                            return Some(Err(Error::NonData));
                        },
                    }
                },
            }
        }
    }
}

/// The text of an auxiliary side-band line `d`: everything past the
/// channel tag, with a single trailing newline removed.
fn band_text(d: &Vec<u8>) -> (r: Vec<u8>)
    requires
        d@.len() >= 1,
    ensures
        r@ == trim_newline(d@.skip(1)),
{
    let end = if d.len() >= 2 && d[d.len() - 1] == 10 {
        d.len() - 1
    } else {
        d.len()
    };
    let out = copy_range(d, 1, end);
    proof {
        assert(out@ =~= trim_newline(d@.skip(1)));
    }
    out
}

/// The termination kind of the marker `line`.  A payload line has no
/// kind; mapping one would be an internal contract violation, so the
/// precondition rules it out and the violating branch is provably
/// unreachable rather than silently coerced.
fn message_kind(line: &Line) -> (r: MessageKind)
    requires
        !(line@ is Data),
    ensures
        r == marker_kind(line@),
{
    match line {
        Line::Flush => MessageKind::Flush,
        Line::Delimiter => MessageKind::Delimiter,
        Line::ResponseEnd => MessageKind::ResponseEnd,
        Line::Data(_) => vstd::pervasive::unreached(),
    }
}

/// A copy of `d[from..end]` as an owned vector.
fn copy_range(d: &Vec<u8>, from: usize, end: usize) -> (r: Vec<u8>)
    requires
        from <= end <= d@.len(),
    ensures
        r@ == d@.subrange(from as int, end as int),
{
    let mut out: Vec<u8> = Vec::new();
    let mut i: usize = from;
    while i < end
        invariant
            from <= i <= end <= d@.len(),
            out@ == d@.subrange(from as int, i as int),
        decreases end - i,
    {
        out.push(d[i]);
        proof {
            assert(out@ =~= d@.subrange(from as int, i + 1 as int));
        }
        i = i + 1;
    }
    out
}

} // verus!
