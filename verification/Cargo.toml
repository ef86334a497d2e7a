[package]
name = "aria_parser"
version = "0.1.0"
edition = "2021"
publish = false

[dependencies]
pest = "2"
clap = { version = "4", features = ["derive"] }
glob = "0.3"
rayon = "1"
