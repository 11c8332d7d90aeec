[package]
name = "simple_rust_controller"
version = "0.1.0"
edition = "2021"
publish = false

[dependencies]
chrono = "0.4"
futures = "0.3"
k8s-openapi = { version = "0.14", default-features = false, features = ["v1_23", "schemars"] }
kube = { version = "0.72", default-features = false, features = ["client", "rustls-tls", "derive"] }
kube-runtime = "0.72"
schemars = "0.8"
serde = { version = "1", features = ["derive"] }
serde_json = "1"
snafu = "0.7"
tokio = { version = "1", features = ["macros", "rt-multi-thread"] }
tracing = "0.1"
tracing-subscriber = "0.3"
