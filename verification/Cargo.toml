[package]
name = "mini_oidc"
version = "0.1.0"
edition = "2021"
publish = false

[dependencies]
rand = "*"
argon2 = "*"
openidconnect = { version = "*", default-features = false }
chrono = "*"
rsa = "*"
axum = "*"
axum-extra = { version = "*", features = ["cookie"] }
tokio = { version = "*", features = ["rt-multi-thread", "macros", "net", "time", "sync"] }
serde = { version = "*", features = ["derive"] }
serde_json = "*"
anyhow = "*"
dotenvy = "*"

[dev-dependencies]
base62 = "*"
serde_urlencoded = "*"
