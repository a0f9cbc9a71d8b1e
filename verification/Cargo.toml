[package]
name = "minipython"
version = "0.1.0"
edition = "2021"

[dependencies]
ordered-float = "*"
clap = "2"
