[package]
name = "hass_fast"
version = "0.1.0"
edition = "2021"
publish = false

[dependencies]
lazy_static = "*"
reqwest = { version = "*", default-features = false, features = ["json"] }
serde_json = "*"
tokio = { version = "*", features = ["macros", "rt-multi-thread", "io-std", "io-util", "net", "sync"] }
tokio-stream = { version = "*", features = ["net"] }
