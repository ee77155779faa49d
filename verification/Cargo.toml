[package]
name = "stateye"
version = "0.1.0"
edition = "2021"
publish = false

[dependencies]
serde_json = "1"
reqwest = { version = "0.12", default-features = false, features = ["blocking", "json", "rustls-tls"] }
discord-rich-presence = "0.2"
rbx_cookie = "0.1"
tokio = { version = "1", features = ["rt-multi-thread", "macros", "time"] }
