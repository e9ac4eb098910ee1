[package]
name = "authcore"
version = "0.1.0"
edition = "2021"
publish = false

[dependencies]
argon2 = "0.5"
hex = "0.4"
rand = "0.8"
sha2 = "0.10"
uuid = { version = "1", features = ["v4"] }
serde = { version = "1", features = ["derive"] }
rusqlite = { version = "*", features = ["bundled"] }
actix-web = "4"
actix-session = { version = "*", features = ["cookie-session"] }
tokio = { version = "1", features = ["rt-multi-thread", "macros", "sync"] }
tokio-cron-scheduler = "*"
futures-util = "0.3"
