[package]
name = "cipher_browser"
version = "0.1.0"
edition = "2021"
publish = false

[dependencies]
ncurses = "=5.91.0"
open = "=5.4.5"
