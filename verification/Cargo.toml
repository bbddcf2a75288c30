[package]
name = "tween_accounts"
version = "0.1.0"
edition = "2021"
publish = false

[dependencies]
anyhow = "1"
async-graphql = { version = "7", default-features = false, features = ["url"] }
async-trait = "0.1"
axum = { version = "0.8", default-features = false, features = ["json"] }
axum-extra = { version = "0.10", default-features = false, features = ["query"] }
chrono = { version = "0.4", default-features = false, features = ["clock"] }
figment = "0.10"
lettre = { version = "0.11", default-features = false }
rand = "0.8"
rand_core = "0.6"
reqwest = { version = "0.12", default-features = false, features = ["json"] }
schemars = "0.8"
serde = { version = "1", features = ["derive"] }
serde_json = "1"
sha2 = "0.10"
sqlx = { version = "0.8", default-features = false, features = ["postgres", "runtime-tokio", "derive", "uuid", "chrono", "json"] }
thiserror = "2"
tokio = { version = "1", features = ["time"] }
tracing = "0.1"
ulid = { version = "1", features = ["uuid"] }
url = "2"
uuid = "1"
zeroize = "1"
