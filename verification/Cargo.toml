[package]
name = "hatysa"
version = "0.2.1"
edition = "2021"
publish = false

[dependencies]
chrono = "0.4"
dotenv = "0.15"
eyre = "0.6"
rand = "0.8"
reqwest = { version = "0.11", default-features = false, features = ["rustls-tls"] }
serenity = { version = "0.11", features = ["collector"] }
thiserror = "1"
tokio = { version = "1", features = ["macros", "rt-multi-thread"] }
tracing = "0.1"
tracing-subscriber = { version = "0.3", features = ["env-filter"] }
url = "2"
