[package]
name = "buddy"
version = "0.1.0"
edition = "2021"
publish = false

[dependencies]
async-openai = "0.17"
console = "0.15"
derive_more = "0.99"
dialoguer = "0.11"
dotenv = "0.15"
globset = "0.4"
serde = { version = "1", features = ["derive"] }
serde_json = "1"
textwrap = "0.16"
tokio = { version = "1", features = ["full"] }
toml = "0.8"
walkdir = "2"
