[package]
name = "flox"
version = "0.1.0"
edition = "2021"
publish = false

[dependencies]
anyhow = "1"
bpaf = { version = "0.7", features = ["derive", "autocomplete"] }
