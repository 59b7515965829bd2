[package]
name = "relatum"
version = "0.1.0"
edition = "2021"
publish = false

[dependencies]
jiff = "*"
pulldown-cmark = { version = "*", default-features = false }
ttf-parser = "*"
base64 = "*"
serde = { version = "*", features = ["derive"] }
serde_json = "*"
thiserror = "*"
anyhow = "*"
tracing = "*"
axum = "*"
tokio = { version = "*", features = ["macros", "rt-multi-thread"] }
tower-http = { version = "*", features = ["trace"] }
utoipa = "*"
utoipa-axum = "*"
clap = { version = "*", features = ["derive", "env"] }
reqwest = { version = "*", default-features = false, features = ["json"] }
keyring-core = "*"
zbus-secret-service-keyring-store = { version = "*", features = ["crypto-rust"] }
apple-native-keyring-store = "*"
printpdf = { version = "*", default-features = false }
