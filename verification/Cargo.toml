[package]
name = "modrinth_downloader"
version = "0.1.0"
edition = "2021"
publish = false

[dependencies]
sha2 = "*"
serde = { version = "*", features = ["derive"] }
ureq = { version = "*", features = ["json"] }
url = "*"
config = { version = "*", default-features = false, features = ["toml"] }
chrono = "*"
tracing = "*"
tracing-subscriber = { version = "*", features = ["env-filter"] }
color-eyre = "*"

[dev-dependencies]
hex = "*"
