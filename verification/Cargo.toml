[package]
name = "termrs"
version = "0.1.0"
edition = "2021"
publish = false

[dependencies]
is_executable = "1"
serde = { version = "1", features = ["derive"] }
serde_json = "1"
termsize = "*"
text_io = "*"
