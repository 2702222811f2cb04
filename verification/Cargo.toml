[package]
name = "hook_relay"
version = "0.1.0"
edition = "2021"
publish = false

[dependencies]
anyhow = "=1.0.104"
clap = { version = "=4.6.7", features = ["derive"] }
directories = "=6.0.0"
dotenvy = "=0.15.7"
hostname = "=0.4.2"
serde = { version = "=1.0.229", features = ["derive"] }
serde_json = "=1.0.151"
takecell = "=0.1.1"
teloxide = "=0.17.0"
tokio = { version = "=1.53.2", features = ["macros", "rt-multi-thread", "time", "io-util", "io-std"] }
tracing = "=0.1.44"
tracing-subscriber = { version = "=0.3.23", features = ["env-filter"] }
uuid = { version = "=1.27.0", features = ["v4"] }
