[package]
name = "navactor"
version = "0.1.0"
edition = "2021"
publish = false

[dependencies]
async-trait = "0.1"
chrono = "0.4"
clap = { version = "4", features = ["derive", "cargo"] }
clap_complete = "4"
log = "0.4"
poem = "1"
poem-openapi = { version = "2", features = ["swagger-ui"] }
serde = { version = "1", features = ["derive"] }
serde_json = "1"
sqlx = { version = "0.6", features = ["runtime-tokio-rustls", "sqlite"] }
time = { version = "0.3", features = ["formatting", "parsing", "macros", "serde"] }
tokio = { version = "1", features = ["full"] }
tracing = "0.1"
tracing-subscriber = "0.3"
