[package]
name = "rosu-pp-older"
version = "0.1.0"
edition = "2021"
publish = false

[dependencies]
rosu-pp = "*"
rosu-map = "*"
rosu-mods = "*"
