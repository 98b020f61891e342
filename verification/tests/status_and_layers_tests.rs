use lambda_grpc_web::auth_interceptor::AuthInterceptor;
use lambda_grpc_web::envelope::{MetadataMap, RequestEnvelope, ResponseEnvelope, StreamFrame};
use lambda_grpc_web::meta_echo::MetaEchoLayer;
use lambda_grpc_web::status::{code_number, ErrorCode, RpcStatus};
use lambda_grpc_web::wire_log::{FrameKind, WireLogLayer};

#[test]
fn canonical_code_numbers() {
    assert_eq!(code_number(ErrorCode::Success), 0);
    assert_eq!(code_number(ErrorCode::DeadlineExceeded), 4);
    assert_eq!(code_number(ErrorCode::PermissionDenied), 7);
    assert_eq!(code_number(ErrorCode::Aborted), 10);
    assert_eq!(code_number(ErrorCode::Internal), 13);
}

#[test]
fn status_realizes_as_the_rpc_stacks_own() {
    let st = RpcStatus::new(ErrorCode::DeadlineExceeded, "too slow".to_string()).to_tonic();
    assert_eq!(st.code(), tonic::Code::DeadlineExceeded);
    assert_eq!(st.message(), "too slow");
    let st = RpcStatus::new(ErrorCode::Aborted, "gave up".to_string()).to_tonic();
    assert_eq!(st.code(), tonic::Code::Aborted);
    assert_eq!(st.message(), "gave up");
    let st = RpcStatus::new(ErrorCode::Success, "".to_string()).to_tonic();
    assert_eq!(st.code(), tonic::Code::Ok);
}

#[test]
fn status_reads_back_from_the_rpc_stack() {
    let back = RpcStatus::from_tonic(&tonic::Status::permission_denied("no"));
    assert_eq!(back.code, ErrorCode::PermissionDenied);
    assert_eq!(back.message, "no");
    // a code outside the adapter's taxonomy maps to Internal
    let back = RpcStatus::from_tonic(&tonic::Status::unavailable("later"));
    assert_eq!(back.code, ErrorCode::Internal);
    assert_eq!(back.message, "later");
}

#[test]
fn test_auth_interceptor() {
    let mut metadata = MetadataMap::new();
    metadata.insert("authorization".to_string(), "reject".to_string());
    let request = RequestEnvelope { metadata, frames: vec![] };
    let err = AuthInterceptor.call(request).unwrap_err();
    assert_eq!(err.code, ErrorCode::PermissionDenied);
    assert_eq!(err.message, "requested to reject");
}

#[test]
fn auth_interceptor_accepts_everything_else() {
    let mut metadata = MetadataMap::new();
    metadata.insert("authorization".to_string(), "let me in".to_string());
    let request = RequestEnvelope { metadata, frames: vec![] };
    let passed = AuthInterceptor.call(request).unwrap();
    assert_eq!(
        passed.metadata.get("authorization").map(String::as_str),
        Some("let me in")
    );
    let request = RequestEnvelope { metadata: MetadataMap::new(), frames: vec![] };
    assert!(AuthInterceptor.call(request).is_ok());
}

#[test]
fn test_meta_echo_tower_layer() {
    let mut request_metadata = MetadataMap::new();
    request_metadata.insert("echo-meta".to_string(), "abc-123".to_string());
    let response = ResponseEnvelope { metadata: MetadataMap::new(), frames: vec![] };
    let echoed = MetaEchoLayer::default()
        .layer()
        .call(&request_metadata, response);
    assert_eq!(
        echoed.metadata.get("meta-value").map(String::as_str),
        Some("abc-123")
    );
}

#[test]
fn meta_echo_without_the_header_changes_nothing() {
    let request_metadata = MetadataMap::new();
    let mut metadata = MetadataMap::new();
    metadata.insert("kept".to_string(), "as-is".to_string());
    let response = ResponseEnvelope { metadata, frames: vec![] };
    let echoed = MetaEchoLayer::default()
        .layer()
        .call(&request_metadata, response);
    assert_eq!(echoed.metadata.len(), 1);
    assert!(echoed.metadata.get("meta-value").is_none());
}

#[test]
fn metadata_lookup_sees_the_most_recent() {
    let mut m = MetadataMap::new();
    assert!(m.get("k").is_none());
    m.insert("k".to_string(), "one".to_string());
    m.insert("other".to_string(), "x".to_string());
    m.insert("k".to_string(), "two".to_string());
    assert_eq!(m.get("k").map(String::as_str), Some("two"));
    assert_eq!(m.get("other").map(String::as_str), Some("x"));
    assert_eq!(m.len(), 3);
}

#[test]
fn wire_log_describes_without_altering() {
    let mut observer = WireLogLayer.layer();
    let frames = vec![
        StreamFrame::Data(b"abcde".to_vec()),
        StreamFrame::Trailer(RpcStatus::new(ErrorCode::Success, String::new())),
        StreamFrame::End,
    ];
    let records = observer.observe_stream(&frames);
    assert_eq!(observer.frames_observed(), 3);
    assert_eq!(records.len(), 3);
    assert_eq!(records[0].index, 1);
    assert_eq!(records[0].kind, FrameKind::DataKind);
    assert_eq!(records[0].size, 5);
    assert_eq!(records[1].index, 2);
    assert_eq!(records[1].kind, FrameKind::TrailerKind);
    assert_eq!(records[1].size, 0);
    assert_eq!(records[2].index, 3);
    assert_eq!(records[2].kind, FrameKind::OtherKind);
    // the observed frames are untouched and flow on
    assert!(matches!(&frames[0], StreamFrame::Data(d) if d.as_slice() == b"abcde"));
}

#[test]
fn wire_log_counts_across_observations() {
    let mut observer = WireLogLayer.layer();
    let first = observer.observe_frame(&StreamFrame::Data(b"x".to_vec()));
    assert_eq!(first.index, 1);
    let second = observer.observe_frame(&StreamFrame::End);
    assert_eq!(second.index, 2);
    assert_eq!(second.kind, FrameKind::OtherKind);
}
