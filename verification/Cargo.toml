[package]
name = "vault_kube_creds"
version = "0.1.0"
edition = "2021"
publish = false

[dependencies]
aws-auth-payload = "=0.3.0"
base64 = "=0.13.1"
chrono = "=0.4.45"
clap = "2"
dirs = "*"
env_logger = "*"
failure = "0.1"
gcp_auth = "0.4"
log = "0.4"
reqwest = { version = "0.11", default-features = false }
rusoto_core = "=0.47.0"
serde = { version = "1", features = ["derive"] }
serde_json = "1"
tokio = { version = "1", features = ["macros", "rt-multi-thread"] }
url = "2"
