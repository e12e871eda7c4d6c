[package]
name = "nnue_trainer"
version = "0.1.0"
edition = "2021"
publish = false

[dependencies]
clap = { version = "4.5", features = ["derive"] }
rand = "0.9"
serde = { version = "1", features = ["derive"] }
strum = "0.27"
strum_macros = "0.27"
toml = "0.8"
