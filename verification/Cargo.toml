[package]
name = "tuxvantage"
version = "0.1.0"
edition = "2021"
publish = false

[dependencies]
anyhow = "*"
atty = "*"
battery = "*"
clap = { version = "*", features = ["derive"] }
color-backtrace = "*"
crossbeam = "*"
directories = "*"
env_logger = "*"
itertools = "*"
log = "*"
once_cell = "*"
owo-colors = "*"
parking_lot = "*"
serde = { version = "*", features = ["derive"] }
serde_json = "*"
signal-hook = "*"
strip-ansi-escapes = "*"
toml = "*"
