[package]
name = "appbiotic_code"
version = "0.1.0"
edition = "2021"
publish = false

[dependencies]
anyhow = "1"
bytes = "1"
clap = { version = "4", features = ["derive"] }
derive-new = "*"
http = "1"
itertools = "*"
prost = "0.12"
prost-types = "0.12"
protobuf = "3"
serde = { version = "1", features = ["derive"] }
strum = { version = "*", features = ["derive"] }
thiserror = "1"
tonic = { version = "0.11", default-features = false }
tonic-build = "0.11"
tracing = "0.1"
tracing-subscriber = { version = "0.3", features = ["env-filter"] }

[dev-dependencies]
serde_json = "1"
