[package]
name = "textgo"
version = "0.1.0"
edition = "2021"
publish = false

[dependencies]
global-hotkey = "=0.8.0"
wildmatch = "=2.7.0"
