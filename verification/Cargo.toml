[package]
name = "twenty_postgres_proxy"
version = "0.1.0"
edition = "2021"
publish = false

[dependencies]
async-trait = "=0.1.92"
bytes = "=1.12.1"
envy = "=0.4.2"
futures = "0.3"
pgwire = { version = "=0.42.1", default-features = false, features = ["server-api"] }
serde = { version = "=1.0.229", features = ["derive"] }
tokio = { version = "=1.54.1", features = ["rt-multi-thread", "macros", "net", "sync"] }
tokio-postgres = "=0.7.18"
