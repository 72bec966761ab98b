[package]
name = "ticket_api"
version = "0.1.0"
edition = "2021"
publish = false

[dependencies]
axum = "0.6"
serde = { version = "1", features = ["derive"] }
tokio = { version = "1", features = ["macros", "rt-multi-thread"] }
tower-cookies = "0.9"
tower-http = { version = "0.4", features = ["fs"] }
