[package]
name = "bevy_osm_tiles"
version = "0.1.0"
edition = "2021"
publish = false

[dependencies]
chrono = "=0.4.45"
urlencoding = "=2.1.3"
serde_json = "=1.0.154"
serde = { version = "=1.0.229", features = ["derive"] }
geo = "=0.33.1"
thiserror = "=2.0.21"
async-trait = "=0.1.92"
tracing = "=0.1.44"
tokio = { version = "=1.54.1", features = ["fs", "rt"] }
reqwest = { version = "=0.13.5", default-features = false }
ehttp = "=0.7.2"
