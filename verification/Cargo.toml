[package]
name = "image_cache"
version = "0.1.0"
edition = "2021"
publish = false

[dependencies]
blake3 = "1"
image = "0.25"
fast_image_resize = { version = "*", features = ["image"] }
rapid-qoi = "*"
jpegxl-rs = "*"
libheif-rs = "*"
reqwest = "0.12"
rocket = { version = "0.5", features = ["json"] }
serde = { version = "1", features = ["derive"] }
serde_json = "1"
tabled = "*"
log = "0.4"
env_logger = "*"
