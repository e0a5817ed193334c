[package]
name = "noalbs"
version = "0.1.0"
edition = "2021"
publish = false

[dependencies]
strsim = "=0.11.1"
serde = { version = "=1.0.229", features = ["derive"] }
serde_json = "=1.0.151"
tokio = { version = "=1.53.2", features = ["rt-multi-thread", "macros", "sync", "time"] }
reqwest = { version = "=0.13.5", default-features = false, features = ["json"] }
quick-xml = { version = "=0.42.0", features = ["serialize"] }
obws = { version = "=0.15.0", features = ["events"] }
futures-util = "=0.3.34"
