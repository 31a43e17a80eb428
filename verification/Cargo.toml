[package]
name = "oauth_capture"
version = "0.1.0"
edition = "2021"
publish = false

[dependencies]
open = "*"
serde_json = "1"
tokio = { version = "1", features = ["rt-multi-thread", "macros", "time"] }
warp = "0.3"
