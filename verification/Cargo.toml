[package]
name = "github_device_flow"
version = "0.1.0"
edition = "2021"
publish = false

[dependencies]
keyring = { version = "*", default-features = false, features = ["apple-native", "windows-native", "linux-native"] }
attohttpc = { version = "*", default-features = false, features = ["form", "json"] }
clap = { version = "*", features = ["derive"] }
dirs = "*"
env_logger = "*"
is-terminal = "*"
log = "*"
serde = { version = "*", features = ["derive"] }
serde_yaml = "*"
thiserror = "*"
webbrowser = "*"
