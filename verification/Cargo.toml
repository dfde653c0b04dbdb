[package]
name = "llm_vn"
version = "0.1.0"
edition = "2021"
publish = false

[dependencies]
anyhow = "*"
clap = { version = "*", features = ["derive", "env"] }
embedded-graphics = "=0.8.2"
embedded-text = "*"
env_logger = "*"
escpos = { version = "=0.20.1", features = ["ui"] }
heapless = { version = "*", features = ["serde"] }
jiff = { version = "*", features = ["serde"] }
log = "*"
ollama-rs = "=0.3.6"
postcard-rpc = { version = "=0.12.1", features = ["use-std", "raw-nusb"] }
postcard-schema = { version = "*", features = ["derive", "heapless-v0_9", "use-std"] }
rand = "=0.10.3"
schemars = "*"
serde = { version = "*", features = ["derive"] }
serde_json = "*"
text-splitter = "*"
tokio = { version = "*", features = ["macros", "rt-multi-thread", "time"] }
toml = "*"
