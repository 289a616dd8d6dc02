[package]
name = "chat_narrator"
version = "0.1.0"
edition = "2021"
publish = false

[dependencies]
clap = { version = "=4.5.61", features = ["derive"] }
tokio = { version = "=1.53.2", features = ["rt-multi-thread", "macros", "time", "io-std", "io-util"] }
openai-api-rs = "=4.1.1"
youtube_chat = "=0.2.2"
