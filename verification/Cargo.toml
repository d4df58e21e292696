[package]
name = "fieldcheck"
version = "0.1.0"
edition = "2021"
publish = false

[dependencies]
phonenumber = "*"
