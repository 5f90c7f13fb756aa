[package]
name = "platform_config"
version = "0.1.0"
edition = "2021"
publish = false

[dependencies]
config = { version = "0.8", default-features = false, features = ["toml"] }
structopt = "0.2"
syn = "0.13"
quote = "0.5"
proc-macro2 = "0.3"
