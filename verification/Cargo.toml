[package]
name = "password_manager"
version = "0.1.0"
edition = "2021"
publish = false

[dependencies]
uuid = { version = "1", features = ["v4"] }
chrono = { version = "0.4", features = ["serde"] }
serde = { version = "1", features = ["derive"] }
serde_json = "1"
tokio = { version = "1", features = ["rt-multi-thread", "macros", "time", "sync"] }
tonic = "0.12"
prost = "0.13"
async-trait = "0.1"
sqlx = { version = "0.7", default-features = false, features = ["runtime-tokio", "sqlite"] }
