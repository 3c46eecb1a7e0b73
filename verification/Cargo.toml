[package]
name = "tracy"
version = "1.2.0"
edition = "2021"
publish = false

[dependencies]
clap = "2"
directories = "*"
micro_http_server = "*"
web-view = "*"
