[package]
name = "local_stream"
version = "0.1.0"
edition = "2021"
publish = false

[dependencies]
mime_guess = "=2.0.5"
httpdate = "=1.0.3"
axum = "=0.8.9"
tokio = { version = "=1.54.1", features = ["net", "rt-multi-thread", "fs", "io-util", "sync", "time"] }
futures-util = "=0.3.34"
serde = { version = "=1.0.229", features = ["derive"] }
log = "=0.4.34"

[dev-dependencies]
http-range-header = "=0.4.2"
