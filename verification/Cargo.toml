[package]
name = "debugger_gui"
version = "0.1.0"
edition = "2021"
publish = false

[dependencies]
unsegen = "=0.3.1"
syntect = { version = "=5.2.0", default-features = false, features = ["default-fancy"] }
