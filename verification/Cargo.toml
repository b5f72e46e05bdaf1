[package]
name = "tailscale_applet"
version = "0.1.0"
edition = "2021"
publish = false

[dependencies]
regex = "1"
serde_json = "1"
tokio = { version = "1", features = ["process", "time", "rt-multi-thread", "macros"] }
dirs = "*"
