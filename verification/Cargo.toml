[package]
name = "audio_recorder"
version = "0.1.0"
edition = "2021"
publish = false

[dependencies]
chrono = "=0.4.45"
cpal = "0.15"
dirs = "=6.0.0"
gtk4 = "=0.9.7"
ksni = "=0.2.2"
reqwest = { version = "=0.12.28", default-features = false, features = ["blocking", "multipart"] }
serde = { version = "=1.0.229", features = ["derive"] }
serde_json = "=1.0.154"
vorbis_rs = "=0.5.6"
