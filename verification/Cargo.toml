[package]
name = "rioting"
version = "0.1.0"
edition = "2021"
publish = false

[dependencies]
anyhow = "1"
async-trait = "*"
axum = "0.8"
base64 = "0.22"
chrono = "0.4"
clap = { version = "4", features = ["derive"] }
rand = "0.10"
reqwest = { version = "*", default-features = false }
retina = "*"
roxmltree = "*"
serde = { version = "1", features = ["derive"] }
sha1 = "*"
str0m = "*"
tokio = { version = "1", features = ["macros", "rt-multi-thread", "sync", "net", "time"] }
toml = "*"
tower-http = { version = "*", features = ["fs"] }
url = "2"
