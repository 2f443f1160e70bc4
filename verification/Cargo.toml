[package]
name = "table_layout"
version = "0.1.0"
edition = "2021"
publish = false

[dependencies]
barcoders = "*"
printpdf = "0.5"
