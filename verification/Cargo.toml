[package]
name = "mailjet_client"
version = "0.1.0"
edition = "2021"
publish = false

[dependencies]
names = { version = "*", default-features = false }
secrecy = "*"
serde = { version = "1", features = ["derive"] }
serde_json = "1"
thiserror = "*"
tracing = "0.1"
reqwest = { version = "0.12", features = ["json", "native-tls"] }
reqwest-middleware = { version = "0.4", features = ["json"] }
reqwest-tracing = "0.5"
