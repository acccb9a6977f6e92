[package]
name = "background_cat"
version = "0.1.0"
edition = "2021"
publish = false

[dependencies]
regex = "1"
log = "0.4"
env_logger = "0.11"
kankyo = "0.3"
rayon = "1"
serde = { version = "1", features = ["derive"] }
reqwest = { version = "0.11", default-features = false, features = ["json", "rustls-tls"] }
serenity = "0.12"
tokio = { version = "1", features = ["macros", "rt-multi-thread"] }
