[package]
name = "kbuild"
version = "0.1.0"
edition = "2021"
publish = false

[dependencies]
rootcause = "*"
indicatif = "*"
reqwest = { version = "0.12", default-features = false, features = ["blocking", "rustls-tls"] }
bindgen = "*"
