[package]
name = "mcgen"
version = "0.1.0"
edition = "2021"
publish = false

[dependencies]
rand = "0.8"
csv = "1"
serde = "1"
gnuplot = "*"

[dev-dependencies]
