use lambda_grpc_web::containment::{
    contain, internal_response, panic_detail, panic_status, TaskOutcome, UNKNOWN_PANIC_MESSAGE,
};
use lambda_grpc_web::envelope::{seal_with_status, MetadataMap, ResponseEnvelope, StreamFrame};
use lambda_grpc_web::status::{ErrorCode, RpcStatus};

#[test]
fn test_unary_panic() {
    // a handler that fails unrecoverably yields exactly one Internal
    // response carrying the failure's own words
    let out = contain(TaskOutcome::Panicked(Some("panic test case".to_string())));
    assert_eq!(out.frames.len(), 2);
    match &out.frames[0] {
        StreamFrame::Trailer(st) => {
            assert_eq!(st.code, ErrorCode::Internal);
            assert_eq!(st.message, "panic test case");
        }
        _ => panic!("expected the Internal trailer"),
    }
    assert!(matches!(out.frames[1], StreamFrame::End));
}

#[test]
fn wordless_failure_gets_placeholder() {
    assert_eq!(panic_detail(None), UNKNOWN_PANIC_MESSAGE);
    let out = contain(TaskOutcome::Panicked(None));
    match &out.frames[0] {
        StreamFrame::Trailer(st) => {
            assert_eq!(st.code, ErrorCode::Internal);
            assert_eq!(st.message, "Unknown panic message");
        }
        _ => panic!("expected the Internal trailer"),
    }
}

#[test]
fn completed_sibling_is_unaffected() {
    // a request processed alongside a failing one completes normally
    let sibling = ResponseEnvelope {
        metadata: MetadataMap::new(),
        frames: vec![StreamFrame::Data(b"ok response".to_vec()), StreamFrame::End],
    };
    let _failed = contain(TaskOutcome::Panicked(Some("boom".to_string())));
    let out = contain(TaskOutcome::Completed(sibling));
    match &out.frames[0] {
        StreamFrame::Data(d) => assert_eq!(d.as_slice(), b"ok response"),
        _ => panic!("expected the sibling's own data"),
    }
    assert!(matches!(out.frames[1], StreamFrame::End));
}

#[test]
fn panic_status_carries_detail() {
    let st = panic_status(Some("stream exploded".to_string()));
    assert_eq!(st.code(), tonic::Code::Internal);
    assert_eq!(st.message(), "stream exploded");
    let st = panic_status(None);
    assert_eq!(st.code(), tonic::Code::Internal);
    assert_eq!(st.message(), UNKNOWN_PANIC_MESSAGE);
}

#[test]
fn internal_response_shape() {
    let out = internal_response("why it broke".to_string());
    assert_eq!(out.metadata.len(), 0);
    assert_eq!(out.frames.len(), 2);
    match &out.frames[0] {
        StreamFrame::Trailer(st) => {
            assert_eq!(st.code, ErrorCode::Internal);
            assert_eq!(st.message, "why it broke");
        }
        _ => panic!("expected the Internal trailer"),
    }
}

#[test]
fn scenario_frame_then_failure_is_no_silent_close() {
    // a handler emits one frame then fails unrecoverably: the client
    // observes that frame followed by an Internal error
    let flushed = vec![StreamFrame::Data(b"f".to_vec())];
    let st = RpcStatus::new(ErrorCode::Internal, "stream handler failed".to_string());
    let observed = seal_with_status(&flushed, st);
    assert_eq!(observed.len(), 3);
    match &observed[0] {
        StreamFrame::Data(d) => assert_eq!(d.as_slice(), b"f"),
        _ => panic!("expected the flushed frame first"),
    }
    match &observed[1] {
        StreamFrame::Trailer(st) => {
            assert_eq!(st.code, ErrorCode::Internal);
            assert_eq!(st.message, "stream handler failed");
        }
        _ => panic!("expected an Internal trailer, not a silent close"),
    }
    assert!(matches!(observed[2], StreamFrame::End));
}
