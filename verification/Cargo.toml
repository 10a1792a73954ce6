[package]
name = "cargomon"
version = "0.1.0"
edition = "2021"
publish = false

[dependencies]
colored = "2"
notify = "4"
structopt = "0.3"
