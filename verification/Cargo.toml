[package]
name = "bevy_sync"
version = "0.1.0"
edition = "2021"
publish = false

[dependencies]
uuid = { version = "1", features = ["v4"] }
lz4-compression = "*"
serde = { version = "1", features = ["derive"] }
bincode = "1"
wgpu-types = "0.19"
tiny_http = "*"
ureq = "2"
threadpool = "1"
ascii = "1"
