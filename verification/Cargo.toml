[package]
name = "fullsend"
version = "0.1.0"
edition = "2021"
publish = false

[dependencies]
reqwest = { version = "=0.13.5", default-features = false, features = ["form"] }
thiserror = "=2.0.21"
