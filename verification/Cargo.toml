[package]
name = "comunidad"
version = "0.1.0"
edition = "2021"
publish = false

[dependencies]
chrono = "=0.4.45"
serde = { version = "=1.0.229", features = ["derive"] }
serde_json = "=1.0.151"
tokio = { version = "=1.53.2", features = ["rt-multi-thread", "macros", "sync"] }
tokio-postgres = { version = "=0.7.18", features = ["with-chrono-0_4"] }
