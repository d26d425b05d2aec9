[package]
name = "huectl"
version = "0.1.0"
edition = "2021"
publish = false

[dependencies]
huelib = "*"
structopt = "0.3"
envconfig = "*"
envconfig_derive = "*"
serde = { version = "1", features = ["derive"] }
serde_json = "1"
