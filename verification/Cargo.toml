[package]
name = "retro_veneer"
version = "0.1.0"
edition = "2021"
publish = false

[dependencies]
dirs = "6"
raylib = "5"
tokio = { version = "1", features = ["rt-multi-thread", "macros", "time"] }
