[package]
name = "aether_core"
version = "0.1.0"
edition = "2021"
publish = false

[dependencies]
base64 = "0.22"
chacha20poly1305 = "0.10"
aes-gcm = "0.10"
argon2 = "0.5"
sha2 = "0.10"
hex = "0.4"
rand = "0.8"
chrono = "0.4"
serde = { version = "1", features = ["derive"] }
serde_json = "1"
urlencoding = "2"
blurhash = "0.1"
image = { version = "0.24", default-features = false, features = ["png", "jpeg", "gif", "webp"] }
thiserror = "1"
directories = "5"
gethostname = "0.4"
tracing = "0.1"
tokio = { version = "1", features = ["rt-multi-thread", "macros", "sync", "time", "fs"] }
reqwest = { version = "0.12", default-features = false, features = ["json", "rustls-tls"] }
libsql = { version = "0.9", default-features = false, features = ["core"] }
