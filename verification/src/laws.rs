//! The laws of the reader, proved over the transition functions that
//! the executable operations are verified against.

use vstd::prelude::*;

use crate::decode::StreamItem;
use crate::line::{LineModel, MessageKind, Protocol};
use crate::reader::{
    consume, is_stop_line, push_event, spec_peek, spec_read_next, spec_readline, spec_reset,
    stops_delimiter, DataOutcome, LineOutcome, ReaderState,
};

verus! {

/// Law: once stopped, a reader stays stopped and unchanged — every raw
/// read, demultiplexed read and look-ahead halts without touching the
/// state, and the reported stop marker never varies until a reset.
pub proof fn lemma_stop_is_stable(s: ReaderState)
    requires
        s.stopped is Some,
    ensures
        spec_readline(s) == (s, LineOutcome::Halt),
        spec_read_next(s) == (s, DataOutcome::Halt),
        spec_peek(s) == (s, DataOutcome::Halt),
{
}

/// Law: a flush marker at the front stops reading under every rule
/// set — the read halts, `Flush` is recorded as the stop, and every
/// later raw read halts too with the same stop recorded.
pub proof fn lemma_flush_stops(s: ReaderState)
    requires
        s.stopped is None,
        s.upcoming.len() > 0,
        s.upcoming[0] == StreamItem::Line(LineModel::Flush),
    ensures
        spec_readline(s).1 is Halt,
        spec_readline(s).0.stopped == Some(MessageKind::Flush),
        spec_readline(spec_readline(s).0) == (spec_readline(s).0, LineOutcome::Halt),
{
}

/// Law: under rules that stop at delimiters, a delimiter marker at the
/// front stops reading and is recorded as the stop.
pub proof fn lemma_delimiter_stops(s: ReaderState)
    requires
        s.stopped is None,
        s.stop_delimiter,
        s.upcoming.len() > 0,
        s.upcoming[0] == StreamItem::Line(LineModel::Delimiter),
    ensures
        spec_readline(s).1 is Halt,
        spec_readline(s).0.stopped == Some(MessageKind::Delimiter),
{
}

/// Law: under `V1` rules a delimiter is ordinary content, not a stop —
/// a raw read hands the marker out as a line and records no stop.
pub proof fn lemma_delimiter_is_content_under_v1(s: ReaderState)
    requires
        s.stopped is None,
        !s.stop_delimiter,
        s.upcoming.len() > 0,
        s.upcoming[0] == StreamItem::Line(LineModel::Delimiter),
    ensures
        spec_readline(s).1 == LineOutcome::Line(LineModel::Delimiter),
        spec_readline(s).0.stopped is None,
        spec_readline(s).0.upcoming == s.upcoming.drop_first(),
{
}

/// Law: a reset clears the stop, installs exactly the stop rules of
/// the given version — flush only under `V1`, delimiter and flush
/// under `V2` — and moves nothing in the stream; the next line, when
/// it is no stop under the new rules, is read out unchanged.
pub proof fn lemma_reset_resumes(s: ReaderState, version: Protocol, l: LineModel)
    requires
        s.upcoming.len() > 0,
        s.upcoming[0] == StreamItem::Line(l),
        !is_stop_line(stops_delimiter(version), l),
    ensures
        spec_reset(s, version).stopped is None,
        spec_reset(s, version).stop_delimiter == stops_delimiter(version),
        spec_reset(s, version).upcoming == s.upcoming,
        spec_readline(spec_reset(s, version)).1 == LineOutcome::Line(l),
        spec_readline(spec_reset(s, version)).0.upcoming == s.upcoming.drop_first(),
{
}

/// The state after `n` raw reads.
pub open spec fn after_reads(s: ReaderState, n: nat) -> ReaderState
    decreases n,
{
    if n == 0 {
        s
    } else {
        after_reads(spec_readline(s).0, (n - 1) as nat)
    }
}

/// Law: a whole segment is readable — while the lines ahead are no
/// stops under the rules in force, consecutive raw reads hand each of
/// them out, in stream order, and record no stop.
pub proof fn lemma_segment_readable(s: ReaderState, n: nat)
    requires
        s.stopped is None,
        n <= s.upcoming.len(),
        forall|i: int|
            0 <= i < n ==> (#[trigger] s.upcoming[i] matches StreamItem::Line(l)
                && !is_stop_line(s.stop_delimiter, l)),
    ensures
        after_reads(s, n).stopped is None,
        after_reads(s, n).upcoming == s.upcoming.skip(n as int),
        after_reads(s, n).stop_delimiter == s.stop_delimiter,
        forall|i: int|
            0 <= i < n ==> (#[trigger] s.upcoming[i] matches StreamItem::Line(l)
                && spec_readline(after_reads(s, i as nat)).1 == LineOutcome::Line(l)),
    decreases n,
{
    if n == 0 {
        assert(after_reads(s, n).upcoming =~= s.upcoming.skip(0));
    } else {
        let s1 = spec_readline(s).0;
        assert(s.upcoming[0] matches StreamItem::Line(l) && !is_stop_line(s.stop_delimiter, l));
        assert(s1.upcoming =~= s.upcoming.drop_first());
        assert(forall|i: int|
            0 <= i < n - 1 ==> #[trigger] s1.upcoming[i] == s.upcoming[i + 1]);
        lemma_segment_readable(s1, (n - 1) as nat);
        assert(after_reads(s, n) == after_reads(s1, (n - 1) as nat));
        assert(after_reads(s, n).upcoming =~= s.upcoming.skip(n as int));
        assert forall|i: int| 0 <= i < n implies (#[trigger] s.upcoming[i]
            matches StreamItem::Line(l)
            && spec_readline(after_reads(s, i as nat)).1 == LineOutcome::Line(l)) by {
            if i == 0 {
            } else {
                assert(s1.upcoming[i - 1] == s.upcoming[i]);
                assert(after_reads(s, i as nat) == after_reads(s1, (i - 1) as nat));
            }
        }
    }
}

/// Law: look-ahead is idempotent — a second look-ahead with no
/// consuming read in between yields the identical outcome, payload
/// bytes included, and changes nothing further: the auxiliary lines
/// on the way were routed once, not twice.
pub proof fn lemma_peek_idempotent(s: ReaderState)
    ensures
        spec_peek(spec_peek(s).0) == (spec_peek(s).0, spec_peek(s).1),
    decreases s.upcoming.len(),
{
    if s.stopped is Some || s.upcoming.len() == 0 {
    } else {
        match s.upcoming[0] {
            StreamItem::Bad(_) => {},
            StreamItem::Line(l) => {
                if is_stop_line(s.stop_delimiter, l) {
                } else {
                    match l {
                        LineModel::Data(d) => {
                            if s.sideband && d.len() >= 1 && d[0] == 1 && d.len() == 1 {
                                lemma_peek_idempotent(consume(s));
                            } else if s.sideband && d.len() >= 1 && d[0] == 2 {
                                lemma_peek_idempotent(push_event(consume(s), false, d.skip(1)));
                            } else if s.sideband && d.len() >= 1 && d[0] == 3 {
                                lemma_peek_idempotent(push_event(consume(s), true, d.skip(1)));
                            }
                        },
                        _ => {},
                    }
                }
            },
        }
    }
}

/// Law: a consuming read right after a look-ahead yields the outcome
/// the look-ahead announced, and lands in the state a direct consuming
/// read would have reached — the look-ahead consumed nothing that the
/// read still needed.
pub proof fn lemma_peek_then_read(s: ReaderState)
    ensures
        spec_read_next(spec_peek(s).0).1 == spec_peek(s).1,
        spec_read_next(spec_peek(s).0).0 == spec_read_next(s).0,
    decreases s.upcoming.len(),
{
    if s.stopped is Some || s.upcoming.len() == 0 {
    } else {
        match s.upcoming[0] {
            StreamItem::Bad(_) => {},
            StreamItem::Line(l) => {
                if is_stop_line(s.stop_delimiter, l) {
                } else {
                    match l {
                        LineModel::Data(d) => {
                            if s.sideband && d.len() >= 1 && d[0] == 1 && d.len() == 1 {
                                lemma_peek_then_read(consume(s));
                            } else if s.sideband && d.len() >= 1 && d[0] == 2 {
                                lemma_peek_then_read(push_event(consume(s), false, d.skip(1)));
                            } else if s.sideband && d.len() >= 1 && d[0] == 3 {
                                lemma_peek_then_read(push_event(consume(s), true, d.skip(1)));
                            }
                        },
                        _ => {},
                    }
                }
            },
        }
    }
}

/// Law: a demultiplexed read only appends to the recorded
/// notifications — what the handler has already received is neither
/// reordered nor dropped, so notifications fire in stream order.
pub proof fn lemma_events_in_order(s: ReaderState)
    ensures
        s.events.is_prefix_of(spec_read_next(s).0.events),
    decreases s.upcoming.len(),
{
    if s.stopped is Some || s.upcoming.len() == 0 {
    } else {
        match s.upcoming[0] {
            StreamItem::Bad(_) => {},
            StreamItem::Line(l) => {
                if is_stop_line(s.stop_delimiter, l) {
                } else {
                    match l {
                        LineModel::Data(d) => {
                            if s.sideband && d.len() >= 1 && d[0] == 1 && d.len() == 1 {
                                lemma_events_in_order(consume(s));
                            } else if s.sideband && d.len() >= 1 && d[0] == 2 {
                                lemma_events_in_order(push_event(consume(s), false, d.skip(1)));
                            } else if s.sideband && d.len() >= 1 && d[0] == 3 {
                                lemma_events_in_order(push_event(consume(s), true, d.skip(1)));
                            }
                        },
                        _ => {},
                    }
                }
            },
        }
    }
}

} // verus!
