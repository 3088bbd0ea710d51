[package]
name = "aoede"
version = "0.1.0"
edition = "2021"
publish = false

[dependencies]
byteorder = "1"
librespot = { version = "0.2", default-features = false }
samplerate = "0.2"
serenity = "0.10"
songbird = "0.1"
tokio = { version = "1", features = ["full"] }
tracing-subscriber = "0.3"
