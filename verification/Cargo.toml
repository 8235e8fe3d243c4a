[package]
name = "music_feed"
version = "0.1.0"
edition = "2021"
publish = false

[dependencies]
axum = "*"
chrono = "*"
dotenvy = "*"
futures-util = "*"
headers = "*"
lambda_http = "*"
rspotify = "*"
serde = { version = "*", features = ["derive"] }
tokio = { version = "*", features = ["macros", "rt-multi-thread"] }
tower-http = { version = "*", features = ["cors"] }
tracing-subscriber = { version = "*", features = ["env-filter"] }
