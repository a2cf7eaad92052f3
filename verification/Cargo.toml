[package]
name = "layout_inspect"
version = "0.1.0"
edition = "2021"
publish = false

[dependencies]
convert_case = "*"
serde = { version = "*", features = ["derive"] }
serde_json = "*"
