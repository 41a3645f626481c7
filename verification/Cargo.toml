[package]
name = "scrn"
version = "0.1.0"
edition = "2021"
publish = false

[dependencies]
crossterm = "*"
libc = "*"
ratatui = "*"
vt100 = "*"
