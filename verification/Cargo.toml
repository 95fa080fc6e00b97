[package]
name = "aitios_cli"
version = "0.1.0"
edition = "2021"
publish = false

[dependencies]
clap = "=4.6.7"
simplelog = "=0.12.2"
rayon = "=1.12.0"
chrono = "=0.4.45"
log = "*"
