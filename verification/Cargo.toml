[package]
name = "rust_on_rails"
version = "0.1.0"
edition = "2021"
publish = false

[dependencies]
hex = "=0.4.3"
serde = { version = "=1.0.229", features = ["derive"] }
serde_json = "=1.0.154"
rusqlite = { version = "=0.41.1", features = ["bundled"] }
tokio = { version = "=1.54.1", features = ["rt", "rt-multi-thread", "time", "sync"] }
image = { version = "=0.25.10", default-features = false, features = ["bmp", "dds", "ff", "gif", "hdr", "ico", "jpeg", "png", "pnm", "qoi", "tga", "tiff", "webp"] }
log = "=0.4.35"
env_logger = { version = "=0.11.11", default-features = false }
async-trait = "=0.1.92"
downcast-rs = "=2.0.2"
raw-window-handle = "=0.6.2"
winit = { version = "=0.30.13", default-features = false, features = ["x11", "rwh_06"] }
