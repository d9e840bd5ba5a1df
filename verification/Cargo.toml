[package]
name = "hyda"
version = "0.1.0"
edition = "2021"
publish = false

[dependencies]
scraper = "=0.20.0"
ego-tree = "=0.6.3"
lightningcss = "=1.0.0-alpha.72"
markup5ever = "=0.12.1"
