[package]
name = "yral_auth"
version = "0.1.0"
edition = "2021"
publish = false

[dependencies]
anyhow = "=1.0.104"
leptos = { version = "=0.8.23", features = ["ssr"] }
leptos_router = { version = "=0.8.17", features = ["ssr"] }
serde = { version = "=1.0.229", features = ["derive"] }
