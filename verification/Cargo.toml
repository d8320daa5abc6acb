[package]
name = "usher"
version = "0.1.0"
edition = "2021"
publish = false

[dependencies]
axum = "0.8"
axum-extra = { version = "0.10", features = ["typed-header"] }
bcrypt = "0.17"
dotenvy = "0.15"
email_address = "0.2"
jsonwebtoken = "9"
log = "0.4"
serde = { version = "1", features = ["derive"] }
serde_json = { version = "1", features = ["raw_value"] }
simple_logger = "5"
sqlx = { version = "0.8", default-features = false, features = ["postgres", "uuid", "runtime-tokio", "macros", "derive"] }
tokio = { version = "1", features = ["macros", "rt-multi-thread", "net"] }
