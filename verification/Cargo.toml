[package]
name = "replica_controller"
version = "0.1.0"
edition = "2021"
publish = false

[dependencies]
rand = "=0.10.3"
kube = { version = "=4.2.0", features = ["runtime", "derive"] }
k8s-openapi = { version = "=0.28.0", features = ["latest"] }
tokio = { version = "=1.53.2", features = ["macros", "rt-multi-thread", "signal", "time"] }
futures-util = "=0.3.34"
log = "=0.4.34"
env_logger = "=0.11.11"
serde = { version = "=1.0.229", features = ["derive"] }
serde_json = "*"
schemars = "=1.2.2"
