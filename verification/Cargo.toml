[package]
name = "term_size"
version = "1.0.0"
edition = "2021"
publish = false

[dependencies]
rustix = { version = "*", features = ["termios", "stdio"] }
