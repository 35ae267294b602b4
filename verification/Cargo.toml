[package]
name = "manderrow"
version = "0.1.0"
edition = "2021"
publish = false

[dependencies]
anyhow = "1"
dirs = "*"
futures-util = "0.3"
pin-project-lite = "0.2"
serde = { version = "1", features = ["derive"] }
simd-json = "*"
tauri = { version = "2", default-features = false }
thiserror = "*"
tokio = { version = "1", features = ["sync", "macros", "rt", "rt-multi-thread"] }
