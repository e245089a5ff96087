[package]
name = "sep2_client"
version = "0.1.0"
edition = "2021"
publish = false

[dependencies]
anyhow = "=1.0.104"
dashmap = "=5.5.3"
hyper = { version = "=0.14.32", features = ["client", "http1", "server", "tcp"] }
hyper-openssl = "=0.9.2"
log = "=0.4.34"
openssl = "=0.10.81"
sep2_common = { version = "=0.2.0", features = ["dcap", "edev", "pubsub", "time"] }
tokio = { version = "=1.54.1", features = ["macros", "net", "rt-multi-thread", "sync", "time"] }
tokio-openssl = "=0.6.5"
x509-parser = "=0.15.1"
