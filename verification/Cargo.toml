[package]
name = "feed_ingest"
version = "0.1.0"
edition = "2021"
publish = false

[dependencies]
askama = "=0.14.0"
async-trait = "=0.1.92"
axum = "=0.8.9"
bcrypt = "=0.19.3"
chrono = "=0.4.45"
clap = { version = "=4.6.7", features = ["derive"] }
displaydoc = "=0.2.7"
dotenvy = "=0.15.7"
nanohtml2text = "=0.3.0"
opml = "=1.1.6"
pretty-error-debug = "=0.3.2"
reqwest = { version = "=0.12.28", default-features = false, features = ["rustls-tls"] }
rss = { version = "=2.1.2", default-features = false }
sea-orm = { version = "=1.1.20", default-features = false, features = ["macros", "with-chrono", "sqlx-postgres", "runtime-tokio-rustls"] }
sea-orm-migration = { version = "=1.1.20", default-features = false, features = ["sqlx-postgres", "runtime-tokio-rustls"] }
serde = { version = "=1.0.229", features = ["derive"] }
thiserror = "=2.0.21"
tokio = { version = "=1.54.1", features = ["macros", "rt-multi-thread", "time", "net"] }
tower-cookies = "=0.11.0"
tower-http = { version = "=0.6.11", features = ["fs", "trace"] }
tracing = "=0.1.44"
tracing-subscriber = "=0.3.23"
