[package]
name = "optail"
version = "0.1.0"
edition = "2021"
publish = false

[dependencies]
colored = "*"
docopt = "*"
mongodb = { version = "*", features = ["sync"] }
serde = { version = "*", features = ["derive"] }
