[package]
name = "nested_query"
version = "0.1.0"
edition = "2021"
publish = false

[dependencies]
axum = "*"
serde = "*"
serde_qs = "*"
urlencoding = "*"
