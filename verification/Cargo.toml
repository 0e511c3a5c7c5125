[package]
name = "ttk91"
version = "0.1.0"
edition = "2021"
publish = false

[dependencies]
prettytable-rs = "*"
nom = "*"
combine = "*"
