[package]
name = "pciid_parser"
version = "0.1.0"
edition = "2021"
publish = false

[dependencies]
atoi = "2"
wide = "0.7"
serde = { version = "1", features = ["derive"] }
serde_json = "1"
ureq = "3"
handlebars = "6"
chrono = "0.4"
