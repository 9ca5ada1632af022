[package]
name = "shakenc"
version = "0.1.0"
edition = "2021"
publish = false

[dependencies]
cshake = "*"
hex = "0.4"
argh = "*"
indicatif = "*"
rpassword = "*"
