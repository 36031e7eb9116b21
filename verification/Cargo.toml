[package]
name = "shipstatus"
version = "0.1.0"
edition = "2021"
publish = false

[dependencies]
chrono = "*"
kube = "*"
k8s-openapi = { version = "*", features = ["latest"] }
serde = { version = "*", features = ["derive"] }
serde_json = "*"
tokio = { version = "*", features = ["macros", "rt-multi-thread"] }
