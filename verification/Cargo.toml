[package]
name = "tado_exporter"
version = "0.1.0"
edition = "2021"
publish = false

[dependencies]
chrono = "=0.4.45"
hyper = { version = "=0.14.32", features = ["server", "http1", "tcp"] }
log = "=0.4.34"
reqwest = { version = "=0.13.5", default-features = false, features = ["form", "json"] }
serde = "=1.0.229"
serde_derive = "=1.0.229"
serde_json = "=1.0.151"
tokio = { version = "=1.53.2", features = ["rt-multi-thread", "macros", "time"] }
