[package]
name = "sqlx-pg"
version = "0.1.0"
edition = "2021"
publish = false

[dependencies]
anyhow = "1"
axum = "0.8"
futures = "0.3"
serde = { version = "1", features = ["derive"] }
sqlx = { version = "0.8", default-features = false, features = ["postgres", "runtime-tokio", "json"] }
tokio = { version = "1", features = ["macros", "rt-multi-thread", "net"] }
xid = "1"
