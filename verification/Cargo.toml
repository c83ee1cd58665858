[package]
name = "apod"
version = "0.1.0"
edition = "2021"
publish = false

[dependencies]
serde_json = "1"
mime_guess = "2"
actix = "*"
actix-rt = "*"
actix-web = "*"
actix-web-actors = "*"
crossbeam = "*"
ctrlc = "*"
webbrowser = "*"
