[package]
name = "kotlin_bindgen"
version = "0.1.0"
edition = "2021"
publish = false

[dependencies]
heck = "0.3"
askama = { version = "0.10", default-features = false }
serde = { version = "1", features = ["derive"] }
