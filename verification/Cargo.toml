[package]
name = "batch_grader"
version = "0.1.0"
edition = "2021"
publish = false

[dependencies]
fuzzy-matcher = "*"
calamine = "*"
clap = { version = "*", features = ["derive"] }
serde = { version = "*", features = ["derive"] }
