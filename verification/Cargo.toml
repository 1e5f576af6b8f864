[package]
name = "postgresql-cst-parser"
version = "0.1.0"
edition = "2021"
publish = false

[dependencies]
cstree = { version = "0.12", features = ["derive"] }
serde = { version = "1", features = ["derive"] }
