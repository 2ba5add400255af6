[package]
name = "batch_proxy"
version = "0.1.0"
edition = "2021"
publish = false

[dependencies]
actix-web = { version = "4", default-features = false, features = ["macros"] }
bytes = "1"
clap = { version = "4", features = ["derive"] }
reqwest = { version = "0.12", default-features = false, features = ["json"] }
serde = { version = "1", features = ["derive"] }
serde_json = "1"
thiserror = "2"
tokio = { version = "1", features = ["macros", "rt-multi-thread", "sync", "time"] }
tracing = "0.1"
tracing-subscriber = { version = "0.3", features = ["env-filter"] }
