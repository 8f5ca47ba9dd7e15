[package]
name = "image_viewer"
version = "0.1.0"
edition = "2021"
publish = false

[dependencies]
image = "=0.25.10"
slint = { version = "=1.18.1", default-features = false, features = ["std", "compat-1-2"] }
i-slint-core = { version = "=1.18.1", default-features = false, features = ["image-decoders"] }
