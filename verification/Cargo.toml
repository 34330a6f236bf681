[package]
name = "thalia"
version = "0.1.0"
edition = "2021"
publish = false

[dependencies]
amq-protocol-types = "=7.2.3"
deadpool-lapin = "=0.12.1"
dotenv = "=0.15.0"
futures = "=0.3.34"
lapin = "=2.5.5"
num_cpus = "=1.17.0"
reqwest = { version = "=0.11.27", default-features = false, features = ["rustls-tls"] }
serde = { version = "=1.0.229", features = ["derive"] }
serde_json = "=1.0.154"
tokio = { version = "=1.54.1", features = ["full"] }
tracing = "=0.1.44"
tracing-subscriber = "=0.3.23"
whoami = "=1.6.1"
