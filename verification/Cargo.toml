[package]
name = "lambda_grpc_web"
version = "0.1.0"
edition = "2021"
publish = false

[dependencies]
bytes = "*"
http = "*"
http-body = "*"
http-body-util = "*"
lambda_http = "*"
lambda_runtime = "*"
tokio = { version = "*", features = ["rt", "macros", "time", "sync"] }
tokio-stream = "*"
tonic = "*"
tonic-web = "*"
tower = { version = "*", features = ["util"] }
tower-http = { version = "*", features = ["catch-panic"] }
