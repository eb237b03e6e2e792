[package]
name = "minecraft_runner"
version = "0.1.0"
edition = "2021"
publish = false

[dependencies]
actix-web = "4"
anyhow = "1"
env_logger = "0.11"
human-size = "0.4"
log = "0.4"
ron = "0.8"
serde = { version = "1", features = ["derive"] }
structopt = "0.3"
winapi = { version = "0.3", features = ["combaseapi", "knownfolders", "shlobj"] }
