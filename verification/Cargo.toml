[package]
name = "mayara"
version = "3.0.0"
edition = "2021"
publish = false

[dependencies]
anyhow = "1"
axum = { version = "0.8", features = ["ws"] }
bincode = "1.3"
chrono = "0.4"
clap = { version = "4", features = ["derive"] }
directories = "6"
futures = "0.3"
http = "1"
itoa = "1"
libc = "0.2"
log = "0.4"
ndarray = "0.16"
num-traits = "0.2"
protobuf = "3"
serde = { version = "1", features = ["derive"] }
serde_json = "1"
socket2 = { version = "0.6", features = ["all"] }
strum = "0.27"
thiserror = "2"
tokio = { version = "1", features = ["full"] }
tokio-graceful-shutdown = "0.16"
wildmatch = "2"
