[package]
name = "webapp"
version = "0.1.0"
edition = "2021"
publish = false

[dependencies]
serde_cbor = "=0.11.2"
actix = "=0.13.5"
actix-web = { version = "=4.18.1", default-features = false, features = ["macros", "ws"] }
actix-web-actors = "=4.3.1"
yew = "=0.18.0"
