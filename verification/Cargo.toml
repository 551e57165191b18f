[package]
name = "geekorm_sql"
version = "0.1.0"
edition = "2021"
publish = false

[dependencies]
serde = { version = "1", features = ["derive"] }
serde_json = "1"
thiserror = "2"
chrono = "0.4"
uuid = { version = "1", features = ["v4"] }
url = "2"
syn = { version = "2", features = ["full"] }
quote = "1"
proc-macro2 = "1"
