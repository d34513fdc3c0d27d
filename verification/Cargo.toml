[package]
name = "target_fanout"
version = "0.1.0"
edition = "2021"
publish = false

[dependencies]
clap = "2"
colored = "1"
env_logger = "0.7"
