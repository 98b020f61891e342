//! Failure containment: an unrecoverable failure while processing one
//! request is caught at that request's boundary and converted into a
//! canonical Internal error, so it can neither crash the process nor affect
//! concurrent requests.
//!
//! The model requires the execution model the host provides: each request's
//! handler chain runs in an independently failable unit whose abnormal
//! termination is observable as a distinct outcome — that observation is a
//! [`TaskOutcome`]. The caller extracts a human-readable description from
//! the failure payload when one is available and hands it in as the
//! `Option<String>` of [`TaskOutcome::Panicked`]. Failures outside request
//! processing (during stack construction, for one) are not caught here and
//! remain fatal.

use vstd::prelude::*;
use crate::envelope::{MetadataMap, ResponseEnvelope, StreamFrame, stream_bytes};
use crate::status::{ErrorCode, RpcStatus, status_code_of, status_message_of};

verus! {

/// The placeholder description used when a failure payload carries no text.
pub const UNKNOWN_PANIC_MESSAGE: &'static str = "Unknown panic message";

/// How one request's independently failable unit ended.
#[derive(Debug)]
pub enum TaskOutcome {
    /// The handler chain ran to completion, with its response.
    Completed(ResponseEnvelope),
    /// The unit terminated abnormally; the payload's human-readable
    /// description, where one was available.
    Panicked(Option<String>),
}

/// The description a failure payload yields: its own text when available,
/// the generic placeholder otherwise.
pub open spec fn spec_panic_detail(payload: Option<String>) -> Seq<char> {
    match payload {
        Option::Some(m) => m@,
        Option::None => UNKNOWN_PANIC_MESSAGE@,
    }
}

/// The shape of the canonical Internal error response carrying `detail`: no
/// metadata, no data bytes, one trailer and the end marker.
pub open spec fn spec_is_internal_response(r: ResponseEnvelope, detail: Seq<char>) -> bool {
    &&& r.metadata@ == Seq::<(Seq<char>, Seq<char>)>::empty()
    &&& r.frames@.len() == 2
    &&& (r.frames@[0] matches StreamFrame::Trailer(st) && st.code == ErrorCode::Internal
        && st.message@ == detail)
    &&& r.frames@[1] is End
    &&& stream_bytes(r.frames@) == Seq::<u8>::empty()
}

/// What containment owes for each outcome: a completed handler's response
/// passes through unchanged, and an abnormal termination becomes exactly the
/// canonical Internal response for its payload's description.
pub open spec fn spec_contained(outcome: TaskOutcome, r: ResponseEnvelope) -> bool {
    match outcome {
        TaskOutcome::Completed(h) => r == h,
        TaskOutcome::Panicked(p) => spec_is_internal_response(r, spec_panic_detail(p)),
    }
}

/// The description of a failure payload, as the canonical Internal error
/// carries it.
pub fn panic_detail(payload: Option<String>) -> (m: String)
    ensures
        m@ == spec_panic_detail(payload),
{
    match payload {
        Option::Some(m) => m,
        Option::None => String::from_str(UNKNOWN_PANIC_MESSAGE),
    }
}

/// The canonical Internal error response carrying the given description.
pub fn internal_response(detail: String) -> (r: ResponseEnvelope)
    ensures
        spec_is_internal_response(r, detail@),
{
    let st = RpcStatus::new(ErrorCode::Internal, detail);
    let mut frames: Vec<StreamFrame> = Vec::new();
    frames.push(StreamFrame::Trailer(st));
    frames.push(StreamFrame::End);
    proof {
        assert(frames@.drop_last().drop_last() =~= Seq::<StreamFrame>::empty());
        assert(stream_bytes(frames@.drop_last().drop_last()) =~= Seq::<u8>::empty());
        assert(stream_bytes(frames@.drop_last()) =~= Seq::<u8>::empty());
        assert(stream_bytes(frames@) =~= Seq::<u8>::empty());
    }
    ResponseEnvelope { metadata: MetadataMap::new(), frames }
}

/// Converts how one request's unit ended into that request's one response.
pub fn contain(outcome: TaskOutcome) -> (r: ResponseEnvelope)
    ensures
        spec_contained(outcome, r),
{
    match outcome {
        TaskOutcome::Completed(h) => h,
        TaskOutcome::Panicked(p) => internal_response(panic_detail(p)),
    }
}

/// The status the assembled stack's failure hook produces: code Internal,
/// with the payload's description (or the generic placeholder) verbatim.
pub fn panic_status(payload: Option<String>) -> (s: tonic::Status)
    ensures
        status_code_of(s) == 13,
        status_message_of(s) == spec_panic_detail(payload),
{
    let detail = panic_detail(payload);
    let st = RpcStatus::new(ErrorCode::Internal, detail);
    st.to_tonic()
}

/// Containment isolates failures: for a request whose unit terminated
/// abnormally, the one response produced for it is the canonical Internal
/// error for its payload — while any concurrently processed request's
/// response is determined by that request's own outcome alone, so a
/// completed sibling's response passes through unchanged, whatever the
/// failed request's payload was.
pub proof fn lemma_containment_isolation(
    payload: Option<String>,
    failed: ResponseEnvelope,
    sibling: ResponseEnvelope,
    sibling_out: ResponseEnvelope,
)
    requires
        spec_contained(TaskOutcome::Panicked(payload), failed),
        spec_contained(TaskOutcome::Completed(sibling), sibling_out),
    ensures
        spec_is_internal_response(failed, spec_panic_detail(payload)),
        sibling_out == sibling,
{
}

} // verus!
