[package]
name = "ghostbrowse"
version = "0.1.0"
edition = "2021"
publish = false

[dependencies]
scraper = "*"
crossterm = "*"
ratatui = "*"
reqwest = { version = "*", default-features = false, features = ["blocking"] }
