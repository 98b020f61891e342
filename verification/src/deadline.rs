//! Deadline enforcement: races a handler's completion against the
//! invocation's remaining time budget and substitutes a canonical
//! DeadlineExceeded response if the budget expires.
//!
//! Time is modeled as milliseconds on the host's wall clock. Per request the
//! layer reads the invocation's absolute deadline; with no invocation context
//! it degrades to pass-through. Otherwise the soft deadline is the absolute
//! deadline minus the configured margin: a request whose soft deadline is
//! already unreachable or past is answered DeadlineExceeded without invoking
//! the inner handler at all, and any other request races the handler against
//! a timer firing at the soft deadline. Whichever side resolves first decides
//! the outcome; an exact-boundary tie may resolve either way. The race spans
//! response streaming: bytes already flushed when the timer fires are not
//! retracted, but the terminating trailer is forced to DeadlineExceeded
//! ([`force_exceeded_trailer`]).
//!
//! The caller of this model performs the waiting itself: it asks
//! [`LambdaDeadlineService::decide`] for the decision, runs the race the
//! decision calls for, and maps the event that won through
//! [`race_outcome`]. The decision and the mapping are total functions of
//! their arguments, so a warm process may run any number of such races
//! concurrently without shared state.

use vstd::prelude::*;
use crate::envelope::{MetadataMap, ResponseEnvelope, StreamFrame, frame_data, is_data_frame,
    stream_bytes, data_frames, seal_with_status};
use crate::status::{ErrorCode, RpcStatus};

verus! {

/// The margin the assembled stack configures when the caller does not choose
/// one: half a second to flush a response before the platform's hard cutoff.
pub const DEFAULT_MARGIN_MS: u64 = 500;

/// The longest invocation the platform allows, in milliseconds. A configured
/// margin must stay strictly below it.
pub const PLATFORM_MAX_INVOCATION_MS: u64 = 900000;

/// The message the canonical DeadlineExceeded response carries.
pub const DEADLINE_EXCEEDED_MESSAGE: &'static str = "Lambda deadline exceeded";

/// Configuration of deadline enforcement: the safety margin subtracted from
/// the absolute deadline to produce the soft deadline.
#[derive(Clone, Copy, Debug)]
pub struct LambdaDeadlineLayer {
    pub margin_ms: u64,
}

/// What the layer does with one request, given the invocation context and the
/// present time.
#[derive(Clone, Copy, Debug, PartialEq, Eq, Structural)]
pub enum DeadlineDecision {
    /// No deadline is known: invoke the inner handler unchanged (degraded
    /// mode; the caller should log a warning, never fail).
    PassThrough,
    /// The soft deadline is unreachable or already past: answer
    /// DeadlineExceeded without invoking the inner handler.
    ImmediateExceeded,
    /// Invoke the inner handler and race it against a timer firing at the
    /// soft deadline, `remaining_ms` from now.
    Race { soft_deadline_ms: u64, remaining_ms: u64 },
}

/// The decision for a request: pass through without a known deadline; answer
/// immediately when the margin exceeds the deadline or the soft deadline is
/// not in the future (a backwards clock lands here, never in a crash);
/// otherwise race.
pub open spec fn spec_decide(deadline_ms: Option<u64>, margin_ms: u64, now_ms: u64)
    -> DeadlineDecision {
    match deadline_ms {
        Option::None => DeadlineDecision::PassThrough,
        Option::Some(d) => if d < margin_ms {
            DeadlineDecision::ImmediateExceeded
        } else if now_ms >= d - margin_ms {
            DeadlineDecision::ImmediateExceeded
        } else {
            DeadlineDecision::Race {
                soft_deadline_ms: (d - margin_ms) as u64,
                remaining_ms: (d - margin_ms - now_ms) as u64,
            }
        },
    }
}

impl LambdaDeadlineLayer {
    /// Configures deadline enforcement with the given margin.
    pub fn new(margin_ms: u64) -> (r: LambdaDeadlineLayer)
        requires
            margin_ms < PLATFORM_MAX_INVOCATION_MS,
        ensures
            r.margin_ms == margin_ms,
    {
        LambdaDeadlineLayer { margin_ms }
    }

    /// The configured margin.
    pub fn margin_ms(&self) -> (m: u64)
        ensures
            m == self.margin_ms,
    {
        self.margin_ms
    }

    /// Wraps an inner handler: the service enforces this layer's margin.
    pub fn layer(&self) -> (s: LambdaDeadlineService)
        ensures
            s.margin_ms == self.margin_ms,
    {
        LambdaDeadlineService { margin_ms: self.margin_ms }
    }
}

/// The per-request enforcement around one inner handler. It holds only the
/// immutable margin captured at construction, so one value serves any number
/// of concurrent invocations.
#[derive(Clone, Copy, Debug)]
pub struct LambdaDeadlineService {
    pub margin_ms: u64,
}

impl LambdaDeadlineService {
    /// Decides what to do with a request, from the invocation's absolute
    /// deadline (absent outside the target host) and the present time.
    pub fn decide(&self, deadline_ms: Option<u64>, now_ms: u64) -> (d: DeadlineDecision)
        ensures
            d == spec_decide(deadline_ms, self.margin_ms, now_ms),
    {
        match deadline_ms {
            Option::None => DeadlineDecision::PassThrough,
            Option::Some(dl) => {
                if dl < self.margin_ms {
                    DeadlineDecision::ImmediateExceeded
                } else if now_ms >= dl - self.margin_ms {
                    DeadlineDecision::ImmediateExceeded
                } else {
                    DeadlineDecision::Race {
                        soft_deadline_ms: dl - self.margin_ms,
                        remaining_ms: dl - self.margin_ms - now_ms,
                    }
                }
            },
        }
    }
}

/// Which side of the race resolved first. An exact-boundary tie may be
/// reported either way; the outcome is canonical for whichever is reported.
#[derive(Debug)]
pub enum RaceEvent {
    /// The inner handler finished first, with its response.
    HandlerFirst(ResponseEnvelope),
    /// The timer fired first; the handler's eventual result is discarded.
    TimerFirst,
}

/// The shape of the canonical DeadlineExceeded response: no metadata, a
/// valid-but-empty body whose only frames are the forced trailer and the end
/// marker.
pub open spec fn spec_is_exceeded_response(r: ResponseEnvelope) -> bool {
    &&& r.metadata@ == Seq::<(Seq<char>, Seq<char>)>::empty()
    &&& r.frames@.len() == 2
    &&& (r.frames@[0] matches StreamFrame::Trailer(st)
        && st.code == ErrorCode::DeadlineExceeded
        && st.message@ == DEADLINE_EXCEEDED_MESSAGE@)
    &&& r.frames@[1] is End
    &&& stream_bytes(r.frames@) == Seq::<u8>::empty()
}

/// The canonical response substituted when the budget expires: empty
/// metadata and body, the trailer forced to DeadlineExceeded, so its shape
/// matches a genuine response.
pub fn deadline_exceeded_response() -> (r: ResponseEnvelope)
    ensures
        spec_is_exceeded_response(r),
{
    let st = RpcStatus::new(
        ErrorCode::DeadlineExceeded,
        String::from_str(DEADLINE_EXCEEDED_MESSAGE),
    );
    let mut frames: Vec<StreamFrame> = Vec::new();
    frames.push(StreamFrame::Trailer(st));
    frames.push(StreamFrame::End);
    proof {
        assert(frames@.drop_last().drop_last() =~= Seq::<StreamFrame>::empty());
        assert(stream_bytes(frames@.drop_last().drop_last()) =~= Seq::<u8>::empty());
        assert(stream_bytes(frames@.drop_last()) =~= Seq::<u8>::empty());
        assert(stream_bytes(frames@) =~= Seq::<u8>::empty());
    }
    ResponseEnvelope { metadata: MetadataMap::new(), frames }
}

/// What the race owes for each winning side: a handler that resolved first
/// determines the outcome unchanged, a timer that fired first substitutes
/// the canonical DeadlineExceeded response.
pub open spec fn spec_race_outcome(event: RaceEvent, r: ResponseEnvelope) -> bool {
    match event {
        RaceEvent::HandlerFirst(h) => r == h,
        RaceEvent::TimerFirst => spec_is_exceeded_response(r),
    }
}

/// Maps the event that won the race to the request's outcome.
pub fn race_outcome(event: RaceEvent) -> (r: ResponseEnvelope)
    ensures
        spec_race_outcome(event, r),
{
    match event {
        RaceEvent::HandlerFirst(h) => h,
        RaceEvent::TimerFirst => deadline_exceeded_response(),
    }
}

/// A handler that completes before the soft deadline passes through
/// unchanged: whenever the present time plus the handler's processing time
/// stays below deadline minus margin, the decision is to race, the handler's
/// completion still precedes the timer, and the enforced outcome for the
/// handler's side winning is the handler's own response, bit for bit.
pub proof fn lemma_timely_handler_unchanged(
    deadline_ms: u64,
    margin_ms: u64,
    now_ms: u64,
    processing_ms: u64,
    resp: ResponseEnvelope,
    out: ResponseEnvelope,
)
    requires
        now_ms + processing_ms < deadline_ms - margin_ms,
        spec_race_outcome(RaceEvent::HandlerFirst(resp), out),
    ensures
        (spec_decide(Some(deadline_ms), margin_ms, now_ms) matches DeadlineDecision::Race {
            soft_deadline_ms,
            remaining_ms,
        } && now_ms + processing_ms < soft_deadline_ms && remaining_ms == deadline_ms - margin_ms
            - now_ms),
        out == resp,
{
}

/// A handler that never completes cannot outlast the budget: with the soft
/// deadline still ahead, the decision is to race with exactly the remaining
/// budget, and the timer's side winning yields the canonical
/// DeadlineExceeded response, which carries no data frames at all. The
/// caller's timer makes the race resolve within its scheduling overhead of
/// that budget, so the adapter never hangs.
pub proof fn lemma_unresponsive_handler_exceeded(
    deadline_ms: u64,
    margin_ms: u64,
    now_ms: u64,
    out: ResponseEnvelope,
)
    requires
        margin_ms <= deadline_ms,
        now_ms < deadline_ms - margin_ms,
        spec_race_outcome(RaceEvent::TimerFirst, out),
    ensures
        spec_decide(Some(deadline_ms), margin_ms, now_ms) == (DeadlineDecision::Race {
            soft_deadline_ms: (deadline_ms - margin_ms) as u64,
            remaining_ms: (deadline_ms - margin_ms - now_ms) as u64,
        }),
        spec_is_exceeded_response(out),
        stream_bytes(out.frames@) == Seq::<u8>::empty(),
{
}

/// Seals a stream whose budget expired mid-flight: every byte already
/// flushed stands, chunk for chunk, and the terminating trailer is forced to
/// DeadlineExceeded. Any trailer the inner handler had in flight is
/// discarded in its favor.
pub fn force_exceeded_trailer(flushed: &Vec<StreamFrame>) -> (out: Vec<StreamFrame>)
    ensures
        out@.len() == data_frames(flushed@).len() + 2,
        forall|j: int|
            0 <= j < data_frames(flushed@).len() ==> is_data_frame(#[trigger] out@[j])
                && frame_data(out@[j]) == frame_data(data_frames(flushed@)[j]),
        (out@[out@.len() - 2] matches StreamFrame::Trailer(st)
            && st.code == ErrorCode::DeadlineExceeded
            && st.message@ == DEADLINE_EXCEEDED_MESSAGE@),
        out@.last() is End,
        stream_bytes(out@) == stream_bytes(flushed@),
{
    let st = RpcStatus::new(
        ErrorCode::DeadlineExceeded,
        String::from_str(DEADLINE_EXCEEDED_MESSAGE),
    );
    seal_with_status(flushed, st)
}

} // verus!
