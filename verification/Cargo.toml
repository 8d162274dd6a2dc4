[package]
name = "downloader_hub"
version = "0.1.0"
edition = "2021"
publish = false

[dependencies]
deadqueue = { version = "*", default-features = false, features = ["unlimited"] }
directories = "*"
form_urlencoded = "*"
serde_json = "*"
url = "*"
which = "*"
anyhow = "*"
async-trait = "*"
clap = { version = "4", features = ["derive", "env"] }
dotenvy = "*"
futures = "*"
serde = { version = "1", features = ["derive"] }
thiserror = "*"
tokio = { version = "1", features = ["rt-multi-thread", "macros", "fs", "sync", "time"] }
toml = "*"
tracing = "*"
tracing-subscriber = { version = "*", features = ["env-filter"] }

[dev-dependencies]
regex = "*"
