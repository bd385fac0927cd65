[package]
name = "petemc"
version = "0.1.0"
edition = "2021"
publish = false

[dependencies]
async-minecraft-ping = "*"
lazy_static = "1"
microkv = "*"
serenity = "0.11"
tokio = { version = "1", features = ["macros", "rt-multi-thread", "time"] }
