[package]
name = "notch-farm"
version = "0.1.0"
edition = "2021"
publish = false

[dependencies]
itertools = "0.10"
serenity = "0.11"
sqlx = { version = "0.6", features = ["runtime-tokio-rustls", "sqlite"] }
actix-web = { version = "4", default-features = false, features = ["macros"] }
serde = { version = "1", features = ["derive"] }
tokio = { version = "1", features = ["macros", "rt-multi-thread"] }
