[package]
name = "click_through"
version = "0.1.0"
edition = "2021"
publish = false

[dependencies]
urlencoding = "*"
