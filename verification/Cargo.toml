[package]
name = "tgbacky"
version = "0.2.0"
edition = "2021"
publish = false

[dependencies]
async-trait = "0.1"
chrono = "=0.4.45"
clap = { version = "=4.6.7", features = ["derive"] }
directories = "=5.0.1"
dotenvy = "=0.15.7"
futures-util = "=0.3.34"
governor = "=0.10.4"
grammers-client = "=0.11.0"
grammers-mtsender = "=0.11.0"
grammers-session = "=0.11.0"
hex = "=0.4.3"
indicatif = "=0.17.11"
keyring = { version = "=3.6.3", features = ["apple-native", "windows-native"] }
mime_guess = "=2.0.5"
rand = "=0.8.8"
rpassword = "=7.5.4"
rusqlite = { version = "=0.37.0", features = ["bundled"] }
serde = { version = "1", features = ["derive"] }
serde_json = "=1.0.154"
sha2 = "=0.10.9"
thiserror = "2"
tokio = { version = "=1.54.1", features = ["full"] }
tracing = "0.1"
tracing-subscriber = { version = "0.3", features = ["env-filter"] }
url = "=2.5.8"
