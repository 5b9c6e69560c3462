[package]
name = "matrix_auth"
version = "0.1.0"
edition = "2021"
publish = false

[dependencies]
ruma = { version = "*", default-features = false }
url = "*"
serde = "*"
thiserror = "*"
