[package]
name = "rustor"
version = "0.1.0"
edition = "2021"
publish = false

[dependencies]
crossterm = "*"
log = "*"
pistol = "*"
pnet = "*"
ratatui = "*"
tui-logger = "*"
