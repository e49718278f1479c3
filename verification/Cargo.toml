[package]
name = "emu8086"
version = "0.1.0"
edition = "2021"
publish = false

[dependencies]
pest = "*"
pest_derive = "*"
serde_json = "*"
actix-web = "*"
actix-cors = "*"
