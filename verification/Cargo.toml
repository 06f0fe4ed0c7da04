[package]
name = "nvcodec"
version = "0.1.0"
edition = "2021"
publish = false

[dependencies]
cuda-rs = "*"
ffmpeg-next = "*"
flume = "0.11"
futures = "0.3"
thiserror = "1"
tracing = "0.1"
