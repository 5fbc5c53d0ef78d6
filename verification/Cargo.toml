[package]
name = "sbsp"
version = "0.1.0"
edition = "2021"
publish = false

[dependencies]
anyhow = "=1.0.104"
fern = { version = "=0.7.1", features = ["colored"] }
humantime = "=2.4.0"
log = "=0.4.35"
serde = { version = "=1.0.229", features = ["derive"] }
tauri = { version = "=2.12.5", default-features = false }
tauri-plugin-log = { version = "=2.10.1", features = ["colored"] }
tokio = { version = "=1.54.1", features = ["macros", "rt", "rt-multi-thread", "sync", "time"] }
tower-http = { version = "=0.6.11", features = ["fs"] }
ts-rs = "*"
