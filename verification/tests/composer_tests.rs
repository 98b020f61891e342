use lambda_grpc_web::composer::{LambdaServer, LayerSpec, RouteTable};
use lambda_grpc_web::log_layer::{grpc_service_method, LogServiceNameLayer};
use lambda_grpc_web::GrpcLambdaLayer;

#[test]
fn serve_stack_runs_builtins_then_user_layers_reversed() {
    let router = LambdaServer::builder()
        .layer(LayerSpec::LogServiceName)
        .layer(LayerSpec::MetaEcho)
        .add_service("integration.v1.Test".to_string())
        .add_service("grpc.health.v1.Health".to_string());
    let stack = router.serve_stack(true, true);
    assert_eq!(
        stack,
        vec![
            LayerSpec::GrpcWeb,
            LayerSpec::CatchPanic,
            LayerSpec::Deadline { margin_ms: 500 },
            // registered last, reached first among the caller's layers
            LayerSpec::MetaEcho,
            LayerSpec::LogServiceName,
        ]
    );
}

#[test]
fn serve_stack_optional_layers_can_stay_out() {
    let router = LambdaServer::builder().add_service("svc".to_string());
    assert_eq!(router.serve_stack(false, false), vec![LayerSpec::GrpcWeb]);
    assert_eq!(
        router.serve_stack(false, true),
        vec![LayerSpec::GrpcWeb, LayerSpec::Deadline { margin_ms: 500 }]
    );
    assert_eq!(
        router.serve_stack(true, false),
        vec![LayerSpec::GrpcWeb, LayerSpec::CatchPanic]
    );
}

#[test]
fn route_table_first_registration_wins() {
    let mut routes = RouteTable::new();
    routes.add("a.Service".to_string());
    routes.add("b.Service".to_string());
    routes.add("a.Service".to_string());
    assert_eq!(routes.len(), 3);
    assert_eq!(routes.lookup("a.Service"), Some(0));
    assert_eq!(routes.lookup("b.Service"), Some(1));
    assert_eq!(routes.lookup("c.Service"), None);
}

#[test]
fn default_stack_wraps_deadline_outermost() {
    let mut routes = RouteTable::new();
    routes.add("grpc.health.v1.Health".to_string());
    let svc = GrpcLambdaLayer::new().layer(routes);
    assert_eq!(
        svc.stack,
        vec![
            LayerSpec::Deadline { margin_ms: 500 },
            LayerSpec::CatchPanic,
            LayerSpec::GrpcWeb,
        ]
    );
}

#[test]
fn dispatch_by_path_service_name() {
    let mut routes = RouteTable::new();
    routes.add("integration.v1.Test".to_string());
    routes.add("grpc.health.v1.Health".to_string());
    let svc = GrpcLambdaLayer::new().layer(routes);
    assert_eq!(svc.dispatch_path("/grpc.health.v1.Health/Check"), Some(1));
    assert_eq!(svc.dispatch_path("/integration.v1.Test/Unary"), Some(0));
    assert_eq!(svc.dispatch_path("/nowhere.Service/Call"), None);
    assert_eq!(svc.dispatch_path("not-a-grpc-path"), None);
}

#[test]
fn service_method_split() {
    let (svc, meth) = grpc_service_method("/integration.v1.Test/ServerStream").unwrap();
    assert_eq!(svc, "integration.v1.Test");
    assert_eq!(meth, "ServerStream");
    // further slashes belong to the method
    let (svc, meth) = grpc_service_method("/a/b/c").unwrap();
    assert_eq!(svc, "a");
    assert_eq!(meth, "b/c");
    // degenerate but well-shaped paths
    let (svc, meth) = grpc_service_method("//x").unwrap();
    assert_eq!(svc, "");
    assert_eq!(meth, "x");
    let (svc, meth) = grpc_service_method("/x/").unwrap();
    assert_eq!(svc, "x");
    assert_eq!(meth, "");
}

#[test]
fn service_method_split_refusals() {
    assert!(grpc_service_method("").is_none());
    assert!(grpc_service_method("no-leading-slash/x").is_none());
    assert!(grpc_service_method("/only-one-segment").is_none());
    assert!(grpc_service_method("/").is_none());
}

#[test]
fn log_layer_reports_the_parsed_names() {
    let logger = LogServiceNameLayer::default().layer();
    let (svc, meth) = logger.call("/grpc.health.v1.Health/Watch");
    assert_eq!(svc, "grpc.health.v1.Health");
    assert_eq!(meth, "Watch");
}
