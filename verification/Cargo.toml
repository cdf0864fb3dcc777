[package]
name = "podmonitor"
version = "0.1.0"
edition = "2021"
publish = false

[dependencies]
kube = { version = "*", features = ["runtime", "derive", "client"] }
k8s-openapi = { version = "*", features = ["latest"] }
schemars = "*"
serde = { version = "*", features = ["derive"] }
serde_json = "*"
tokio = { version = "*", features = ["macros", "rt-multi-thread", "time"] }
futures = "*"
lettre = "*"
reqwest = { version = "*", features = ["json"] }
log = "*"
env_logger = "*"
thiserror = "*"
