[package]
name = "uptimed"
version = "0.1.0"
edition = "2021"
publish = false

[dependencies]
dirs = "5"
notify-rust = "4"
reqwest = "0.12"
serde = { version = "1", features = ["derive"] }
serde_yaml = "0.9"
signal-hook = "0.3"
tokio = { version = "1", features = ["macros", "rt-multi-thread", "time"] }
