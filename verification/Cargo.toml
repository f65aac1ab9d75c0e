[package]
name = "think_stream"
version = "0.1.0"
edition = "2021"
publish = false

[dependencies]
clap = { version = "*", features = ["derive"] }
console = "*"
ollama-rs = { version = "*", features = ["stream"] }
tokio = { version = "*", features = ["macros", "rt-multi-thread"] }
tokio-stream = "*"
