[package]
name = "rw"
version = "0.1.0"
edition = "2021"
publish = false

[dependencies]
anyhow = "1"
xcb = "0.9"
xcb-util = { version = "0.3", features = ["ewmh"] }
cairo-rs = { version = "0.8", default-features = false, features = ["xcb"] }
cairo-sys-rs = { version = "0.9", features = ["xcb"] }
tokio = { version = "1", features = ["rt-multi-thread", "macros"] }
