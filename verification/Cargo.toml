[package]
name = "workflow"
version = "0.1.0"
edition = "2021"
publish = false

[dependencies]
anyhow = "=1.0.104"
bincode = "=1.3.3"
bonsai-sdk = { version = "=1.4.3", features = ["non_blocking"] }
clap = { version = "=4.6.7", default-features = false, features = ["std", "derive", "env", "help", "usage", "error-context"] }
nvml-wrapper = "=0.13.0"
prost = "=0.13.5"
risc0-zkvm = { version = "=3.0.6", default-features = false, features = ["std"] }
serde = { version = "=1.0.229", features = ["derive"] }
serde_json = "=1.0.154"
serde_yaml = "0.9"
signal-hook = "=0.3.18"
sqlx = { version = "=0.8.6", default-features = false, features = ["postgres", "runtime-tokio", "uuid", "time", "migrate"] }
time = { version = "=0.3.55", features = ["formatting"] }
tokio = { version = "=1.54.1", features = ["rt-multi-thread", "macros", "time", "sync"] }
tonic = "=0.12.3"
tracing = "=0.1.44"
tracing-subscriber = { version = "=0.3.23", default-features = false, features = ["std", "fmt", "env-filter"] }
uuid = { version = "=1.29.0", features = ["v4"] }
