[package]
name = "geo"
version = "0.1.0"
edition = "2021"
publish = false

[dependencies]
geo-types = "0.7"
num-traits = "0.2"
robust = "1"
