[package]
name = "fnm"
version = "0.1.0"
edition = "2021"
publish = false

[dependencies]
dirs = "*"
os_type = "*"
reqwest = { version = "*", default-features = false }
structopt = "0.3"
