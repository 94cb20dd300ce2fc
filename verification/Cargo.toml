[package]
name = "presence_canary"
version = "0.1.0"
edition = "2021"
publish = false

[dependencies]
chrono = "0.4"
chrono-humanize = "0.2"
tokio = { version = "1", features = ["macros", "rt-multi-thread"] }
warp = "0.3"
