[package]
name = "diesel_sentry"
version = "0.1.0"
edition = "2021"
publish = false

[dependencies]
anyhow = "*"
diesel = "*"
phonenumber = "*"
sentry = { version = "*", default-features = false }
uuid = { version = "*", features = ["v4"] }
