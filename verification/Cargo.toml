[package]
name = "conductor"
version = "0.1.0"
edition = "2021"
publish = false

[dependencies]
pgmq = "=0.23.0"
sqlx = "=0.6.3"
serde = { version = "*", features = ["derive"] }
serde_json = "*"
tokio = { version = "*", features = ["full"] }
log = "*"
env_logger = "*"
kube = "=3.1.0"
k8s-openapi = { version = "=0.27.1", features = ["latest"] }
aws-config = "*"
aws-sdk-cloudformation = "*"
