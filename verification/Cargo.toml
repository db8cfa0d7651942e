[package]
name = "jot"
version = "0.1.0"
edition = "2021"
publish = false

[dependencies]
actix-cors = "0.7"
actix-session = { version = "0.10", features = ["redis-session"] }
actix-web = "4"
actix-web-flash-messages = { version = "0.5", features = ["cookies"] }
anyhow = "1"
argon2 = { version = "=0.5.3", features = ["std"] }
chrono = { version = "0.4", default-features = false, features = ["clock"] }
futures-util = "0.3"
rand = "=0.8.8"
secrecy = { version = "=0.10.3", features = ["serde"] }
serde = { version = "1", features = ["derive"] }
serde_json = "1"
sqlx = { version = "0.8", default-features = false, features = ["runtime-tokio", "postgres", "uuid", "chrono"] }
thiserror = "1"
tokio = { version = "1", features = ["macros", "rt-multi-thread"] }
tracing = { version = "0.1", features = ["log"] }
tracing-actix-web = "0.7"
tracing-bunyan-formatter = "0.3"
tracing-log = "0.2"
tracing-subscriber = { version = "0.3", features = ["registry", "env-filter"] }
unicode-segmentation = "=1.13.3"
uuid = { version = "=1.29.0", features = ["v4", "serde"] }
validator = "=0.21.0"
