[package]
name = "code_open"
version = "0.1.0"
edition = "2021"
publish = false

[dependencies]
serde_json = "1"
clap = "3.2"
dirs = "*"
gethostname = "*"
path-absolutize = "*"
shellexpand = "*"
