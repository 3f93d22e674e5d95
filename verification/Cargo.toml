[package]
name = "zeebest"
version = "0.20.0"
edition = "2021"
publish = false

[dependencies]
serde = { version = "1", features = ["derive"] }
serde_json = "1"
tonic = { version = "0.12", features = ["tls"] }
prost = "0.13"
futures = "0.3"
tokio = { version = "1", features = ["rt-multi-thread", "macros", "time"] }
http = "1"
dirs = "5"
async-std = "1"
surf = { version = "2", default-features = false, features = ["h1-client-rustls"] }
