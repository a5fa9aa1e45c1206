[package]
name = "youup"
version = "0.1.0"
edition = "2021"
publish = false

[dependencies]
async-trait = "*"
clap = { version = "*", features = ["cargo"] }
config = "*"
dirs = "*"
env_logger = "*"
log = "*"
surge-ping = "*"
tokio = { version = "*", features = ["net", "time", "rt-multi-thread", "macros"] }
