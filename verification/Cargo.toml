[package]
name = "hls_segmenter"
version = "0.1.0"
edition = "2021"
publish = false

[dependencies]
tokio-util = "*"
sentryshot_padded_bytes = "*"
