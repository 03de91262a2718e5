[package]
name = "rvcore"
version = "0.1.0"
edition = "2021"
publish = false

[dependencies]
crossterm = "0.27"
env_logger = "0.11"
ratatui = "0.26"
