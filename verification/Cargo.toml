[package]
name = "chat_agent"
version = "0.1.0"
edition = "2021"
publish = false

[dependencies]
actix-web = "*"
actix-cors = "*"
async-trait = "*"
env_logger = "*"
awc = "*"
log = "*"
pgvector = { version = "*", features = ["sqlx"] }
serde = { version = "*", features = ["derive"] }
serde_json = "*"
sqlx = { version = "*", default-features = false, features = ["postgres", "runtime-tokio"] }
tokio = { version = "*", features = ["sync", "macros", "rt-multi-thread"] }
