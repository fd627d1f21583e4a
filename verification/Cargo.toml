[package]
name = "deutron"
version = "0.1.0"
edition = "2021"
publish = false

[dependencies]
bimap = "*"
rand = "0.9"
editpe = "*"
mime_guess = "2"
tar = "0.4"
clap = { version = "4", features = ["derive"] }
serde = { version = "1", features = ["derive"] }
serde_json = "1"
ctrlc = "3"
anyhow = "1"
image = "*"
tao = "*"
wry = "*"
