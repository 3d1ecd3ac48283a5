[package]
name = "github_workflow"
version = "0.1.0"
edition = "2021"
publish = false

[dependencies]
anyhow = "=1.0.104"
chrono = "=0.4.45"
curl = "=0.4.51"
fmutex = "=0.3.0"
home = "=0.5.12"
log = "=0.4.34"
once_cell = "=1.21.4"
powerpack = { version = "=0.8.0", features = ["detach", "env"] }
serde = { version = "=1.0.229", features = ["derive"] }
serde_json = "=1.0.154"
sha1 = "=0.10.7"
