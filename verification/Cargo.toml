[package]
name = "prettycron"
version = "0.1.0"
edition = "2021"
publish = false

[dependencies]
cron = "*"
Inflector = "*"
