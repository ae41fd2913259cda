[package]
name = "convex_kmp"
version = "0.1.0"
edition = "2021"
publish = false

[dependencies]
android_logger = "*"
anyhow = "1"
async-once-cell = "*"
convex = "*"
futures = "0.3"
log = "0.4"
parking_lot = "*"
serde_json = "1"
thiserror = "*"
tokio = { version = "1", features = ["rt-multi-thread", "time"] }
