[package]
name = "maintenance_log"
version = "0.1.0"
edition = "2021"
publish = false

[dependencies]
chrono = { version = "0.4.45", default-features = false, features = ["clock"] }
near-workspaces = { version = "0.23.0", default-features = false, features = ["unstable"] }
serde = { version = "1.0.229", features = ["derive"] }
serde_json = "1"
tokio = { version = "1.54.1", default-features = false, features = ["macros", "rt-multi-thread"] }
