[package]
name = "yewcss"
version = "0.1.0"
edition = "2021"

[dependencies]
url = "2"
yew = "0.19"
