[package]
name = "voicewedge"
version = "0.1.0"
edition = "2021"
publish = false

[dependencies]
base64 = "0.22"
serde = { version = "1", features = ["derive"] }
serde_json = "1"
toml = "0.8"
directories = "5"
anyhow = "1"
tracing = "0.1"
tracing-subscriber = "0.3"
reqwest = { version = "0.12", default-features = false, features = ["blocking", "json", "rustls-tls"] }
hound = "3"
arboard = "3"
rdev = { version = "0.5", features = ["unstable_grab"] }
notify-rust = { version = "4", default-features = false, features = ["d"] }
