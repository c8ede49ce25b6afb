[package]
name = "authware"
version = "0.1.0"
edition = "2021"
publish = false

[dependencies]
actix-http = { version = "3", default-features = false }
actix-service = "2"
actix-web = { version = "4", default-features = false }
futures = "0.3"
