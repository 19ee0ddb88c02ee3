[package]
name = "polybar_timer"
version = "0.1.0"
edition = "2021"
publish = false

[dependencies]
clap = "4"
rodio = "0.17"
