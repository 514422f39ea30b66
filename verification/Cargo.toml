[package]
name = "polyglot_parser"
version = "0.1.0"
edition = "2021"
publish = false

[dependencies]
clap = { version = "*", features = ["derive"] }
pest = "*"
pest_derive = "*"
pest-typed-tree = "*"
serde = { version = "*", features = ["derive"] }
serde_yaml = "*"
show-my-errors = "*"
