[package]
name = "drivefiles"
version = "0.1.0"
edition = "2021"
publish = false

[dependencies]
anyhow = "=1.0.104"
clap = { version = "=4.6.7", features = ["derive"] }
geckopanda = "=0.2.0"
google-drive3 = "=5.0.2"
