[package]
name = "k8s-ai-operator"
version = "0.1.0"
edition = "2021"
publish = false

[dependencies]
sha2 = "=0.10.9"
kube = { version = "=0.88.1", features = ["runtime", "derive"] }
k8s-openapi = { version = "=0.21.1", features = ["latest"] }
rig-core = "=0.31.0"
tokio = { version = "=1.54.1", features = ["macros", "rt-multi-thread"] }
futures-util = "=0.3.34"
dotenv = "=0.15.0"
log = "=0.4.34"
pretty_env_logger = "=0.5.0"
serde = { version = "=1.0.229", features = ["derive"] }
serde_json = "=1.0.154"
schemars = "=0.8.22"
thiserror = "=1.0.69"
