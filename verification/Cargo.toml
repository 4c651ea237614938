[package]
name = "tg_keeper"
version = "0.1.0"
edition = "2021"
publish = false

[dependencies]
anyhow = "1"
config = { version = "*", default-features = false, features = ["toml"] }
ctrlc = "3"
env_logger = "*"
grammers-client = "0.7"
grammers-mtsender = "0.7"
grammers-session = "0.7"
grammers-tl-types = "0.7"
log = "0.4"
mime2ext = "*"
rpassword = "7"
rusqlite = "*"
tokio = { version = "1", features = ["full"] }
