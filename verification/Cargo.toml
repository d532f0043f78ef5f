[package]
name = "mfl-gramophone"
version = "0.1.0"
edition = "2021"
publish = false

[dependencies]
rosc = "=0.1.6"
uuid = "=0.7.4"
config = "=0.9.3"
serde = { version = "=1.0.229", features = ["derive"] }
failure = "=0.1.8"
log = "=0.4.34"
env_logger = "=0.5.13"
sqa-engine = "=0.4.0"
sqa-ffmpeg = "=0.2.2"
