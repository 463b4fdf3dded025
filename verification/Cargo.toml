[package]
name = "pgsql_bench"
version = "0.1.0"
edition = "2021"
publish = false

[dependencies]
postgres = "=0.19.14"
serde = { version = "=1.0.229", features = ["derive"] }
serde_json = "=1.0.151"
dotenv = "=0.15.0"
chrono = { version = "=0.4.45", features = ["serde"] }
