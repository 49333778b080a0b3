[package]
name = "libzephir"
version = "0.1.0"
edition = "2021"
publish = false

[dependencies]
regex = "1"
serde_json = "1"
actix-web = { version = "4", default-features = false, features = ["macros"] }
sqlx = { version = "0.8", default-features = false, features = ["postgres", "runtime-tokio"] }
env_logger = "0.11"
derive_more = { version = "1", features = ["display", "from"] }
