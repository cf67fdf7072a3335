[package]
name = "tower_sessions"
version = "0.1.0"
edition = "2021"
publish = false

[dependencies]
async-trait = "=0.1.92"
parking_lot = "=0.12.5"
serde_json = "=1.0.151"
sqlx = { version = "=0.9.0", default-features = false, features = ["runtime-tokio", "sqlite"] }
time = "=0.3.55"

[dev-dependencies]
tokio = { version = "=1.53.2", default-features = false, features = ["rt"] }
