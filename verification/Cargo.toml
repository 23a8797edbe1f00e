[package]
name = "covet"
version = "0.1.0"
edition = "2021"
publish = false

[dependencies]
xmltree = "*"
url = "*"
jiff = "*"
anyhow = "*"
axum = "*"
base64 = "*"
bytes = "*"
clap = { version = "*", features = ["derive"] }
futures-util = "*"
headers = "*"
hyper = "*"
log = "*"
reqwest = { version = "*", default-features = false, features = ["stream"] }
serde = { version = "*", features = ["derive"] }
sha2 = "*"
tokio = { version = "*", features = ["rt-multi-thread", "macros", "net", "time", "fs", "io-util"] }
tower-http = { version = "*", features = ["trace"] }
tracing = "*"
tracing-subscriber = "*"
