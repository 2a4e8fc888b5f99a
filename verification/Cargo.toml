[package]
name = "fs_mcp"
version = "0.1.0"
edition = "2021"
publish = false

[dependencies]
anyhow = "*"
clap = { version = "*", features = ["derive"] }
dirs = "*"
fastrand = "*"
fieldwork = "*"
glob = "*"
grep = "*"
ignore = "*"
mcplease = "*"
pathdiff = "*"
regex = "*"
schemars = "*"
serde = { version = "*", features = ["derive"] }
serde_json = "*"
shellexpand = "*"
size = "*"
timeago = "*"
