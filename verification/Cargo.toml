[package]
name = "axum_mini"
version = "0.1.0"
edition = "2021"
publish = false

[dependencies]
axum = "*"
http-body-util = "*"
minify-html = "*"
