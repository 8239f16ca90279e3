[package]
name = "qobuz_player_controls"
version = "0.1.0"
edition = "2021"
publish = false

[dependencies]
axum = "0.8"
chrono = "0.4"
clap = { version = "4", features = ["derive"] }
dialoguer = "0.11"
futures = "0.3"
leptos = { version = "0.7", features = ["ssr"] }
md5 = "0.7"
snafu = "0.8"
tokio = { version = "1", features = ["full"] }
tokio-stream = { version = "0.1", features = ["sync"] }
tracing = "0.1"
tracing-subscriber = "0.3"
