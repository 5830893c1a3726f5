[package]
name = "helix_plugins"
version = "0.1.0"
edition = "2021"
publish = false

[dependencies]
rhai = "*"
crossterm = "*"
log = "*"
anyhow = "*"
libc = "*"
clipboard-win = "*"
