[package]
name = "anubis-core"
version = "2.0.0"
edition = "2021"
publish = false

[dependencies]
bytes = "=1.12.1"
hound = "=3.5.1"
serde = { version = "=1.0.229", features = ["derive"] }
serde_json = "=1.0.154"
lru = "=0.19.0"
xxhash-rust = { version = "=0.8.19", features = ["xxh64"] }
dashmap = "=6.2.1"
tokio = { version = "=1.54.1", features = ["full"] }
axum = { version = "=0.8.9", features = ["ws"] }
futures = "=0.3.34"
reqwest = { version = "=0.12.28", default-features = false, features = ["json", "multipart", "stream", "rustls-tls"] }
rusqlite = { version = "=0.40.2", features = ["bundled"] }
r2d2 = "=0.8.10"
r2d2_sqlite = "=0.35.0"
chrono = "=0.4.45"
uuid = { version = "=1.29.1", features = ["v4"] }
tracing = "=0.1.44"
tracing-subscriber = { version = "=0.3.23", features = ["env-filter"] }
dotenvy = "=0.15.7"
toml = "=1.2.1+spec-1.1.0"
url = "=2.5.8"
async-trait = "=0.1.92"
thiserror = "=2.0.21"
anyhow = "=1.0.104"
teloxide = { version = "=0.17.0", default-features = false, features = ["macros", "ctrlc_handler", "rustls", "webhooks-axum"] }
dptree = "=0.5.1"
takecell = "=0.1.1"
