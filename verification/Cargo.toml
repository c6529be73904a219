[package]
name = "troveserver"
version = "0.1.0"
edition = "2021"
publish = false

[dependencies]
actix-multipart = "0.3"
actix-rt = "1"
actix-web = "3"
actix-web-httpauth = "0.5"
base64 = "0.13"
bytes = "0.5"
chrono = { version = "0.4", features = ["serde"] }
derive_more = "0.99"
diesel = { version = "1.4", features = ["postgres", "r2d2", "chrono"] }
dotenv = "0.15"
futures = "0.3"
pbkdf2 = { version = "0.12", features = ["simple", "std"] }
rand = "0.8"
serde = { version = "1", features = ["derive"] }
