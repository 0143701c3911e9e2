[package]
name = "image_pipeline"
version = "0.1.0"
edition = "2021"
publish = false

[dependencies]
anyhow = "*"
bayer = "*"
log = "*"
rawloader = "*"
thiserror = "*"
tiff = "*"
tracing = "*"
tracing-subscriber = { version = "*", features = ["env-filter"] }
