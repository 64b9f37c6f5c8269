[package]
name = "artillery_planner"
version = "0.1.0"
edition = "2021"
publish = false

[dependencies]
async-graphql = "7"
async-graphql-axum = "7"
axum = "0.8"
chrono = "0.4"
redb = "3"
reqwest = { version = "0.12", default-features = false, features = ["blocking", "json"] }
serde = { version = "1", features = ["derive"] }
serde_json = "1"
tokio = { version = "1", features = ["rt-multi-thread", "macros", "net"] }
tower-http = { version = "0.6", features = ["fs", "cors", "set-header"] }
tracing = "0.1"
uuid = { version = "1", features = ["v4", "serde"] }
