[package]
name = "actix-governor"
version = "0.1.0"
edition = "2021"
publish = false

[dependencies]
governor = "0.6"
actix-web = { version = "4", default-features = false }
futures = "0.3"
