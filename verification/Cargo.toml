[package]
name = "knowledge"
version = "0.1.0"
edition = "2021"
publish = false

[dependencies]
uuid = { version = "1", features = ["v4"] }
url = "2"
scraper = "*"
html2md = "*"
readability = "*"
password-auth = "1"
serde = { version = "1", features = ["derive"] }
serde_json = "1"
tokio = { version = "1", features = ["rt-multi-thread", "macros"] }
axum = "*"
sqlx = { version = "*", default-features = false, features = ["runtime-tokio", "postgres", "uuid", "chrono"] }
maud = "*"
clap = { version = "4", features = ["derive"] }
color-eyre = "*"
miette = "*"
thiserror = "*"
tracing = "0.1"
async-trait = "*"
futures = "0.3"
chrono = "0.4"
reqwest = { version = "*", default-features = false, features = ["rustls-tls"] }
