[package]
name = "sql_grimoire_auth"
version = "0.1.0"
edition = "2021"
publish = false

[dependencies]
jsonwebtoken = { version = "=11.1.0", features = ["rust_crypto"] }
serde_json = "=1.0.151"
uuid = "=1.27.0"
serde = { version = "*", features = ["derive"] }
time = "*"
axum = "*"
axum-extra = { version = "*", features = ["cookie"] }
axum-jwt-auth = "*"
tokio = { version = "*", features = ["rt-multi-thread", "macros", "net", "time"] }
reqwest = { version = "*", default-features = false }
