[package]
name = "replicant_toolkit"
version = "0.1.0"
edition = "2021"
publish = false

[dependencies]
zstd = "=0.14.0"
image_dds = { version = "=0.7.2", default-features = false, features = ["ddsfile", "image"] }
image = "=0.25.10"
tokio = { version = "=1.53.2", features = ["rt-multi-thread", "sync"] }
