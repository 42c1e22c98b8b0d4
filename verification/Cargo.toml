[package]
name = "elevenlabs_stt"
version = "0.1.0"
edition = "2021"
publish = false

[dependencies]
reqwest = { version = "=0.12.28", features = ["json", "multipart"] }
serde = { version = "=1.0.229", features = ["derive"] }

[dev-dependencies]
futures = "0.3"
http = "1"
