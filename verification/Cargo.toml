[package]
name = "freepdk_gen"
version = "0.1.0"
edition = "2021"
publish = false

[dependencies]
tinytemplate = "*"
serde_json = "*"
clap = { version = "*", features = ["derive"] }
log = "*"
env_logger = "*"
