[package]
name = "sugoi"
version = "0.1.0"
edition = "2021"
publish = false

[dependencies]
askama = "*"
axum = "*"
git-version = "*"
jiff = "*"
rusqlite = { version = "*", features = ["bundled"] }
serde = { version = "*", features = ["derive"] }
tokio = { version = "*", features = ["macros", "rt-multi-thread", "net", "io-util"] }
tower-http = { version = "*", features = ["compression-br", "compression-deflate", "compression-gzip", "compression-zstd", "fs"] }
tracing = "*"
tracing-subscriber = "*"
