[package]
name = "sun_moon"
version = "0.1.0"
edition = "2021"
publish = false

[dependencies]
actix-web = "4"
actix-web-validator = "5"
clap = { version = "4", features = ["derive"] }
dotenvy = "0.15"
log4rs = "1"
serde = { version = "1", features = ["derive"] }
validator = { version = "0.16", features = ["derive"] }
