[package]
name = "bugutv_checkin"
version = "0.1.0"
edition = "2021"
publish = false

[dependencies]
serde_json = "=1.0.151"
anyhow = "*"
dotenvy = "*"
reqwest = { version = "=0.13.5", default-features = false, features = ["cookies", "form"] }
tokio = { version = "*", features = ["macros", "rt-multi-thread"] }
tracing = "*"
tracing-subscriber = "*"
