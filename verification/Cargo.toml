[package]
name = "tower_sessions_firestore_store"
version = "0.1.0"
edition = "2021"
publish = false

[dependencies]
async-trait = "*"
chrono = { version = "*", features = ["serde"] }
firestore = "*"
serde = { version = "*", features = ["derive"] }
serde_json = "*"
thiserror = "*"
time = { version = "*", features = ["serde"] }
tower-sessions-core = "*"
