[package]
name = "content_delivery"
version = "0.1.0"
edition = "2021"
publish = false

[dependencies]
sha1 = "0.10"
actix-web = "4"
dotenv = "0.15"
tokio = { version = "1", features = ["fs"] }
