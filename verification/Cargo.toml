[package]
name = "entest"
version = "0.1.0"
edition = "2021"
publish = false

[dependencies]
fastnum2 = "=0.3.6"
clap = { version = "=4.6.7", features = ["derive"] }
rand_core = "=0.9.5"
