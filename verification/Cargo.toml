[package]
name = "shark"
version = "0.1.0"
edition = "2021"
publish = false

[dependencies]
minijinja = "2"
serde_json = "1"
serde = { version = "1", features = ["derive"] }
ollama-rs = { version = "0.2", features = ["stream", "function-calling"] }
tokio = { version = "1", features = ["macros", "rt-multi-thread", "process"] }
tokio-stream = "0.1"
clap = { version = "4", features = ["derive"] }
toml = "0.8"
termcolor = "1"
async-trait = "0.1"
