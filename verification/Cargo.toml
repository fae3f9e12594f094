[package]
name = "content_integrity"
version = "0.1.0"
edition = "2021"
publish = false

[dependencies]
abao = "*"
anyhow = "1"
base64 = "0.21"
blake3 = "1"
bytes = "1"
derive_more = "0.99"
directories = "*"
dirs = "*"
once_cell = "1"
postcard = { version = "1", features = ["experimental-derive"] }
serde = { version = "1", features = ["derive"] }
serde-error = "*"
shellexpand = "2.1"
thiserror = "1"
tokio = { version = "1", features = ["sync", "rt", "macros"] }
tor-error = "*"
zstd-sys = { version = "2", default-features = false, features = ["experimental"] }
