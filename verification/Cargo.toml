[package]
name = "simple-http3"
version = "0.1.0"
edition = "2021"
publish = false

[dependencies]
anyhow = "=1.0.104"
bytes = "=1.12.1"
chrono = "=0.4.45"
futures = "=0.3.34"
h3 = "=0.0.8"
h3-quinn = { version = "=0.0.10", features = ["datagram"] }
h3-webtransport = "=0.1.2"
http = "=1.5.0"
quinn = "=0.11.12"
rcgen = "=0.13.2"
rustls = "=0.23.46"
sha2 = "=0.10.9"
time = "=0.3.55"
tokio = { version = "=1.54.1", features = ["full"] }
tracing = "=0.1.44"
tracing-subscriber = "=0.3.23"
