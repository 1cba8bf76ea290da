[package]
name = "bit_wallet"
version = "0.1.0"
edition = "2021"
publish = false

[dependencies]
axum = "=0.8.9"
bigdecimal = { version = "=0.4.11", features = ["serde"] }
chrono = "=0.4.45"
reqwest = { version = "=0.13.5", default-features = false, features = ["json"] }
serde = { version = "=1.0.229", features = ["derive"] }
sqlx = { version = "=0.9.0", default-features = false, features = ["postgres", "runtime-tokio", "bigdecimal", "uuid", "chrono", "derive"] }
tokio = { version = "=1.53.2", features = ["rt-multi-thread", "macros", "net"] }
uuid = { version = "=1.27.0", features = ["serde"] }
