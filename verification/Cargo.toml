[package]
name = "rustyroad"
version = "0.1.0"
edition = "2021"
publish = false

[dependencies]
chrono = { version = "=0.4.45", features = ["serde"] }
rustyline = "=18.0.1"
serde = { version = "=1.0.229", features = ["derive"] }
serde_derive = "=1.0.229"
serde_json = "=1.0.151"
sqlx = { version = "=0.6.3", features = ["runtime-tokio-rustls", "sqlite", "postgres", "chrono"] }
tokio = { version = "=1.53.2", features = ["rt", "rt-multi-thread", "macros"] }
toml = "=1.1.7"
