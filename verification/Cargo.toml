[package]
name = "gnome_iris"
version = "0.1.0"
edition = "2021"
publish = false

[dependencies]
semver = "1"
sha2 = "0.10"
keyvalues-parser = "*"
zip = { version = "2", default-features = false, features = ["deflate"] }
serde = { version = "1", features = ["derive"] }
serde_json = "1"
anyhow = "1"
log = "0.4"
directories = "5"
git2 = { version = "0.19", default-features = false }
reqwest = { version = "0.12", default-features = false, features = ["json", "rustls-tls"] }
tokio = { version = "1", features = ["rt-multi-thread", "macros", "sync", "time"] }

[dev-dependencies]
tempfile = "3"
