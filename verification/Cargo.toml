[package]
name = "audioping"
version = "0.1.0"
edition = "2021"
publish = false

[dependencies]
anyhow = "1"
clap = "3"
cpal = "0.14"
ctrlc = "3"
