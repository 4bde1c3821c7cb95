[package]
name = "taskbar_shortcuts"
version = "0.1.0"
edition = "2021"
publish = false

[dependencies]
dataview = "=1.1.0"
dirs = "=7.0.0"
lnk = "=0.6.4"
pelite = "=0.10.0"
