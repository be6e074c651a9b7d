[package]
name = "razer_rs"
version = "0.1.0"
edition = "2021"
publish = false

[dependencies]
clap = { version = "=4.6.7", features = ["derive"] }
eyre = "=0.6.14"
