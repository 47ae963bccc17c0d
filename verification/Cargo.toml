[package]
name = "loungelizard"
version = "0.1.0"
edition = "2021"
publish = false

[dependencies]
url = "2"
serde = { version = "1", features = ["derive"] }
serde_json = "1"
tokio = { version = "1", features = ["sync", "time"] }
futures = "0.3"
bson = "2"
mongodb = { version = "3", features = ["sync"] }
dioxus = { version = "0.6", default-features = false, features = ["macro", "html", "signals", "hooks"] }
dioxus-logger = "0.6"
reqwest = { version = "0.12", default-features = false, features = ["rustls-tls", "json"] }
slack-morphism = { version = "2", features = ["hyper"] }
