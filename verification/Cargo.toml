[package]
name = "music_quiz_bot"
version = "0.1.0"
edition = "2021"
publish = false

[dependencies]
strsim = "0.11"
url = "2"
rand = "0.9"
tokio = { version = "1", features = ["sync", "macros", "rt-multi-thread", "time"] }
serenity = "0.12"
poise = "0.6"
songbird = "0.5"
reqwest = { version = "0.12", features = ["json"] }
dashmap = "6"
dotenvy = "0.15"
tracing = "0.1"
serde = { version = "1", features = ["derive"] }
thiserror = "2"
