[package]
name = "bookstore"
version = "0.1.0"
edition = "2021"
publish = false

[dependencies]
async-trait = "=0.1.92"
base64 = "=0.21.7"
bcrypt = "=0.14.0"
jsonwebtoken = "=8.3.0"
rocket = { version = "=0.5.2", features = ["json"] }
sea-orm = { version = "=0.11.3", features = ["sqlx-mysql", "runtime-tokio-rustls", "macros"] }
sea-orm-migration = { version = "=0.11.3", default-features = false, features = ["sqlx-mysql", "runtime-tokio-rustls"] }
serde_json = "=1.0.154"
