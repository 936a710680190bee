[package]
name = "cornucopia"
version = "0.1.0"
edition = "2021"
publish = false

[dependencies]
heck = "*"
thiserror = "*"
async-trait = "*"
tokio-postgres = "*"
deadpool-postgres = "*"
rusqlite = "*"
