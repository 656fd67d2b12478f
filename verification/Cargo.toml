[package]
name = "darkhorse_store"
version = "0.1.0"
edition = "2021"
publish = false

[dependencies]
sqlx = { version = "*", default-features = false, features = ["postgres", "runtime-tokio", "migrate", "uuid", "macros"] }
uuid = "1"
tokio = { version = "1", features = ["rt", "signal", "macros"] }
serde = { version = "1", features = ["derive"] }
serde_json = "1"
