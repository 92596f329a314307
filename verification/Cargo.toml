[package]
name = "aoc_fetch"
version = "0.1.0"
edition = "2021"
publish = false

[dependencies]
toml = "*"
scraper = "*"
exitcode = "*"
reqwest = { version = "*", default-features = false, features = ["blocking"] }
