[package]
name = "gws"
version = "0.1.0"
edition = "2021"
publish = false

[dependencies]
anyhow = "1"
clap = "4"
open = "5"
serde = { version = "1", features = ["derive"] }
serde_json = "1"
