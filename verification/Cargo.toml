[package]
name = "farmcore"
version = "0.1.0"
edition = "2021"
publish = false

[dependencies]
actix-web = "4"
chrono = { version = "=0.4.45", default-features = false, features = ["std"] }
log = "=0.4.34"
serde = { version = "=1.0.229", features = ["derive"] }
serde_json = "=1.0.154"
sqlx = { version = "=0.8.6", default-features = false, features = ["mysql", "runtime-tokio"] }
tokio = { version = "=1.54.1", features = ["rt-multi-thread", "macros"] }
