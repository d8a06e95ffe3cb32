[package]
name = "newsletter"
version = "0.1.0"
edition = "2021"
publish = false

[dependencies]
actix-session = { version = "0.10", features = ["cookie-session"] }
actix-web = { version = "=4.18.1", default-features = false, features = ["macros", "cookies", "secure-cookies"] }
actix-web-flash-messages = { version = "=0.5.1", features = ["cookies"] }
anyhow = "=1.0.104"
argon2 = { version = "=0.5.3", features = ["std"] }
secrecy = { version = "=0.8.0", features = ["serde"] }
serde = { version = "=1.0.229", features = ["derive"] }
sqlx = { version = "=0.8.6", default-features = false, features = ["postgres", "runtime-tokio", "uuid"] }
thiserror = "=1.0.69"
tracing = "=0.1.44"
uuid = { version = "=1.29.1", features = ["v4", "serde"] }
