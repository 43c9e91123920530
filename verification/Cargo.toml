[package]
name = "diskflash"
version = "0.1.0"
edition = "2021"
publish = false

[dependencies]
gpt = "3"
parse-size = "1"
block-utils = "*"
libc = "0.2"
clap = { version = "4", features = ["derive"] }
spinner = "*"
