[package]
name = "obsidian_uri"
version = "0.1.0"
edition = "2021"

[dependencies]
open = "5"
urlencoding = "2"
