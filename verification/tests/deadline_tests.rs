use lambda_grpc_web::deadline::{
    force_exceeded_trailer, race_outcome, DeadlineDecision, LambdaDeadlineLayer, RaceEvent,
    DEADLINE_EXCEEDED_MESSAGE, DEFAULT_MARGIN_MS,
};
use lambda_grpc_web::envelope::{MetadataMap, ResponseEnvelope, StreamFrame};
use lambda_grpc_web::status::ErrorCode;

fn data(bytes: &[u8]) -> StreamFrame {
    StreamFrame::Data(bytes.to_vec())
}

#[test]
fn decide_races_with_remaining_budget() {
    let svc = LambdaDeadlineLayer::new(500).layer();
    let d = svc.decide(Some(10_000), 2_000);
    assert_eq!(
        d,
        DeadlineDecision::Race {
            soft_deadline_ms: 9_500,
            remaining_ms: 7_500
        }
    );
}

#[test]
fn decide_immediate_when_margin_exceeds_deadline() {
    let svc = LambdaDeadlineLayer::new(500).layer();
    assert_eq!(svc.decide(Some(400), 0), DeadlineDecision::ImmediateExceeded);
}

#[test]
fn decide_immediate_when_soft_deadline_past() {
    let svc = LambdaDeadlineLayer::new(500).layer();
    // exactly at the soft deadline counts as past
    assert_eq!(
        svc.decide(Some(1_000), 500),
        DeadlineDecision::ImmediateExceeded
    );
    // a clock far ahead of the deadline (or run backwards on the deadline's
    // side) degrades the same way, never to a crash
    assert_eq!(
        svc.decide(Some(1_000), u64::MAX),
        DeadlineDecision::ImmediateExceeded
    );
}

#[test]
fn scenario_missing_context_passes_through() {
    // invoked outside the target host: no invocation context, no deadline
    let svc = LambdaDeadlineLayer::new(DEFAULT_MARGIN_MS).layer();
    assert_eq!(svc.decide(None, 123_456), DeadlineDecision::PassThrough);
}

#[test]
fn scenario_unresponsive_handler_times_out() {
    // margin 500 ms, deadline 1 s from call start, handler never responds:
    // the race is armed for 500 ms, and the timer's win yields
    // DeadlineExceeded with no data frames
    let svc = LambdaDeadlineLayer::new(500).layer();
    let d = svc.decide(Some(1_000), 0);
    assert_eq!(
        d,
        DeadlineDecision::Race {
            soft_deadline_ms: 500,
            remaining_ms: 500
        }
    );
    let out = race_outcome(RaceEvent::TimerFirst);
    assert_eq!(out.metadata.len(), 0);
    assert_eq!(out.frames.len(), 2);
    match &out.frames[0] {
        StreamFrame::Trailer(st) => {
            assert_eq!(st.code, ErrorCode::DeadlineExceeded);
            assert_eq!(st.message, DEADLINE_EXCEEDED_MESSAGE);
        }
        _ => panic!("expected the forced trailer first"),
    }
    assert!(matches!(out.frames[1], StreamFrame::End));
}

#[test]
fn handler_first_outcome_is_untouched() {
    let mut metadata = MetadataMap::new();
    metadata.insert("content-type".to_string(), "application/grpc".to_string());
    let resp = ResponseEnvelope {
        metadata,
        frames: vec![data(b"payload"), StreamFrame::End],
    };
    let out = race_outcome(RaceEvent::HandlerFirst(resp));
    assert_eq!(out.metadata.len(), 1);
    assert_eq!(
        out.metadata.get("content-type").map(String::as_str),
        Some("application/grpc")
    );
    assert_eq!(out.frames.len(), 2);
    match &out.frames[0] {
        StreamFrame::Data(d) => assert_eq!(d.as_slice(), b"payload"),
        _ => panic!("expected the data frame back"),
    }
    assert!(matches!(out.frames[1], StreamFrame::End));
}

#[test]
fn mid_stream_expiry_keeps_flushed_bytes() {
    // bytes already flushed stand; the terminating trailer is forced
    let flushed = vec![data(b"fl"), data(b"ushed")];
    let sealed = force_exceeded_trailer(&flushed);
    assert_eq!(sealed.len(), 4);
    match &sealed[0] {
        StreamFrame::Data(d) => assert_eq!(d.as_slice(), b"fl"),
        _ => panic!("expected the first flushed chunk"),
    }
    match &sealed[1] {
        StreamFrame::Data(d) => assert_eq!(d.as_slice(), b"ushed"),
        _ => panic!("expected the second flushed chunk"),
    }
    match &sealed[2] {
        StreamFrame::Trailer(st) => {
            assert_eq!(st.code, ErrorCode::DeadlineExceeded);
            assert_eq!(st.message, DEADLINE_EXCEEDED_MESSAGE);
        }
        _ => panic!("expected the forced trailer"),
    }
    assert!(matches!(sealed[3], StreamFrame::End));
}

#[test]
fn mid_stream_expiry_discards_in_flight_trailer() {
    let genuine = lambda_grpc_web::status::RpcStatus::new(ErrorCode::Success, "ok".to_string());
    let flushed = vec![data(b"x"), StreamFrame::Trailer(genuine)];
    let sealed = force_exceeded_trailer(&flushed);
    assert_eq!(sealed.len(), 3);
    match &sealed[1] {
        StreamFrame::Trailer(st) => assert_eq!(st.code, ErrorCode::DeadlineExceeded),
        _ => panic!("expected the forced trailer to replace the genuine one"),
    }
}

#[test]
fn layer_carries_margin() {
    let layer = LambdaDeadlineLayer::new(250);
    assert_eq!(layer.margin_ms(), 250);
    assert_eq!(layer.layer().margin_ms, 250);
}
