[package]
name = "theme_builder"
version = "0.1.0"
edition = "2021"
publish = false

[dependencies]
palette = "0.7"
serde = "1"
serde_json = "1"
