[package]
name = "image_manager"
version = "0.1.0"
edition = "2021"
publish = false

[dependencies]
anyhow = "=1.0.104"
axum = { version = "=0.7.9", features = ["macros", "ws"] }
cached = { version = "=4.0.3", features = ["async"] }
diesel = { version = "=2.3.14", features = ["sqlite", "r2d2"] }
diesel_migrations = "=2.3.2"
dotenvy = "=0.15.7"
image = { version = "=0.25.10", default-features = false, features = ["png", "jpeg", "gif", "bmp", "webp"] }
juniper = { version = "=0.16.2", features = ["uuid"] }
juniper_axum = { version = "=0.1.1", features = ["subscriptions"] }
juniper_graphql_ws = "=0.4.0"
lazy_static = "=1.5.1"
log = "=0.4.34"
redis = "=1.8.0"
redis_pool = "=0.10.1"
reqwest = { version = "=0.12.28", default-features = false }
serde = { version = "=1.0.229", features = ["derive"] }
tikv-jemallocator = "=0.7.0"
tokio = { version = "=1.54.1", features = ["full"] }
tower = "=0.5.3"
tower-http = { version = "=0.6.11", features = ["compression-gzip", "cors", "fs"] }
tracing = "=0.1.44"
tracing-subscriber = "=0.3.23"
uuid = { version = "=1.29.0", features = ["v7"] }
wasm-bindgen = "=0.2.129"
wasm-bindgen-futures = "=0.4.79"
web-sys = { version = "=0.3.106", features = ["console"] }
web-time = "=1.1.0"
