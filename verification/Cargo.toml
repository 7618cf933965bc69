[package]
name = "onyx"
version = "0.1.0"
edition = "2021"
publish = false

[dependencies]
serde = { version = "=1.0.229", features = ["derive"] }
sqlx = { version = "=0.8.6", default-features = false, features = ["sqlite", "runtime-tokio", "derive", "migrate"] }

[dev-dependencies]
tokio = { version = "=1.54.1", features = ["rt"] }
