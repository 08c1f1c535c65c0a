[package]
name = "qobuz_player"
version = "0.1.0"
edition = "2021"
publish = false

[dependencies]
md5 = "*"
clap = { version = "4", features = ["derive", "env"] }
futures = "0.3"
keepawake = "*"
reqwest = { version = "0.12", default-features = false, features = ["rustls-tls"] }
rodio = "*"
serde = { version = "1", features = ["derive"] }
serde_json = "1"
snafu = "*"
time = "0.3"
tokio = { version = "1", features = ["full"] }
tokio_schedule = "*"
tracing = "0.1"
tracing-subscriber = { version = "0.3", features = ["env-filter"] }
