[package]
name = "ipswdl2"
version = "0.1.0"
edition = "2021"
publish = false

[dependencies]
bytes = "=1.12.1"
chrono = { version = "=0.4.45", features = ["serde"] }
colored = "=2.2.0"
ctrlc = "=3.5.2"
futures = "=0.3.34"
indicatif = "0.17"
log = "=0.4.34"
reqwest = { version = "=0.11.27", default-features = false, features = ["json", "stream", "rustls-tls"] }
serde = { version = "=1.0.229", features = ["derive"] }
simplelog = "=0.12.2"
structopt = "=0.3.26"
tempfile = "=3.27.0"
tokio = { version = "=1.54.1", features = ["full"] }
