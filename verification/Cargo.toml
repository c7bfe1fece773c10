[package]
name = "ginkou_loader"
version = "0.1.0"
edition = "2021"
publish = false

[dependencies]
anyhow = "1"
clap = { version = "=3.2.25", default-features = false, features = ["derive", "std"] }
dirs = "=4.0.0"
getrandom = "=0.2.17"
hex = "=0.4.3"
log = "0.4"
rfd = "0.12"
scopeguard = "1"
serde_json = "=1.0.154"
smol = "=2.0.2"
tap = "1"
tide = { version = "=0.16.0", default-features = false, features = ["h1-server"] }
webbrowser = "=0.8.15"
