[package]
name = "piano-rs"
version = "0.2.0"
edition = "2021"
publish = false

[dependencies]
yaml-rust = "=0.4.5"
bincode = "=1.3.3"
serde = "=1.0.229"
serde_derive = "=1.0.229"
clap = "=2.34.0"
crossterm = "0.11"
crossterm_style = "=0.5.2"
rodio = "=0.9.0"
home = "=0.5.12"
