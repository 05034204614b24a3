[package]
name = "skyspace"
version = "0.1.0"
edition = "2021"
publish = false

[dependencies]
rand = "=0.4.6"
tcod = "=0.15.0"
tcod-sys = "=5.0.1"
