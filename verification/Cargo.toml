[package]
name = "fast_marketplace"
version = "0.1.0"
edition = "2021"
publish = false

[dependencies]
uuid = { version = "=1.29.0", features = ["v4"] }
getrandom = "=0.4.3"
serde = { version = "=1.0.229", features = ["derive"] }
serde_json = "=1.0.154"
tokio = { version = "=1.54.1", features = ["full"] }
axum = "=0.8.9"
tower-http = { version = "=0.7.1", features = ["cors"] }
reqwest = { version = "=0.12.28", default-features = false, features = ["json", "rustls-tls"] }
chromiumoxide = { version = "=0.8.0", default-features = false, features = ["tokio-runtime"] }
futures = "=0.3.34"
async-trait = "=0.1.92"
dirs = "=7.0.0"
image = { version = "=0.25.10", default-features = false, features = ["jpeg", "png", "gif", "webp", "bmp", "tiff", "ico", "pnm", "tga", "qoi", "hdr", "dds", "ff"] }
self_update = { version = "=1.3.3", default-features = false, features = ["reqwest", "rustls", "github"] }
