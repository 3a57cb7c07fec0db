[package]
name = "markdown2html-converter"
version = "0.1.0"
edition = "2021"
publish = false

[dependencies]
anyhow = "=1.0.104"
base64 = "=0.23.1"
clap = { version = "=4.6.7", features = ["derive"] }
comrak = { version = "=0.55.0", default-features = false }
concat-with = "=0.2.11"
html-escape = "=0.3.0"
html-minifier = "=6.0.0"
same-file = "=1.0.6"
terminal_size = "=0.4.4"
yaml-rust2 = "=0.13.0"
