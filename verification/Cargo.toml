[package]
name = "stellar_k8s"
version = "0.1.0"
edition = "2021"
publish = false

[dependencies]
clap = { version = "4", features = ["derive"] }
k8s-openapi = { version = "0.21", features = ["latest"] }
kube = { version = "=0.88.1", features = ["client", "derive"] }
schemars = "0.8"
serde = { version = "1", features = ["derive"] }
serde_json = "1"
serde_yaml = "0.9"
tokio = { version = "1", features = ["macros", "rt-multi-thread"] }
