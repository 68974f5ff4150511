[package]
name = "yatangaki"
version = "0.1.0"
edition = "2021"
publish = false

[dependencies]
rusqlite = { version = "=0.40.2", features = ["bundled"] }
rcgen = { version = "=0.13.2", features = ["x509-parser"] }
rustls = { version = "=0.23.45", default-features = false, features = ["ring", "logging", "std", "tls12"] }
tokio-rustls = { version = "=0.26.6", default-features = false, features = ["ring", "logging", "tls12"] }
tokio = { version = "=1.53.2", features = ["rt-multi-thread", "net", "sync", "time", "io-util", "macros"] }
hyper = { version = "=1.12.0", features = ["http1", "server", "client"] }
hyper-util = { version = "=0.1.21", features = ["tokio"] }
http = "=1.5.0"
http-body-util = "=0.1.5"
reqwest = { version = "=0.12.28", default-features = false, features = ["rustls-tls", "gzip"] }
serde = { version = "=1.0.229", features = ["derive"] }
toml = "*"
