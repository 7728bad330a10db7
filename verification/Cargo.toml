[package]
name = "clientele"
version = "0.1.0"
edition = "2021"
publish = false

[dependencies]
argfile = "*"
camino = "*"
clap = { version = "*", features = ["derive"] }
dotenvy = "*"
wild = "*"
