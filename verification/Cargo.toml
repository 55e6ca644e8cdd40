[package]
name = "reddit_rss"
version = "0.1.0"
edition = "2021"
publish = false

[dependencies]
serde_json = "1"
atom_syndication = "0.12"
serde = { version = "1", features = ["derive"] }
tokio = { version = "1", features = ["macros", "rt-multi-thread", "sync", "time"] }
reqwest = { version = "0.12", default-features = false, features = ["rustls-tls"] }
axum = "0.8"
futures = "0.3"
eyre = "0.6"
color-eyre = "0.6"
tracing = "0.1"
tracing-error = "0.2"
tracing-subscriber = { version = "0.3", features = ["env-filter", "json"] }
