[package]
name = "http_horse"
version = "0.1.0"
edition = "2021"
publish = false

[dependencies]
anyhow = "*"
async-stream = "*"
bytes = "*"
clap = { version = "*", features = ["derive"] }
ctrlc = "*"
fsevent = "*"
futures-util = "*"
http-body-util = "*"
hyper = { version = "*", features = ["http1", "http2", "server"] }
hyper-util = { version = "*", features = ["server", "server-auto", "server-graceful", "http1", "http2"] }
opener = "*"
serde = { version = "*", features = ["derive"] }
smol = "*"
smol-hyper = "*"
tempfile = "*"
tracing = "*"
tracing-subscriber = "*"
trie-hard = "*"
