[package]
name = "beachhead-companion"
version = "0.3.0"
edition = "2021"
publish = false

[dependencies]
chan = "=0.1.23"
chan-signal = "=0.3.3"
chrono = "=0.4.45"
docopt = "=1.1.1"
env_logger = "=0.11.11"
lazy_static = "=1.5.1"
log = "=0.4.34"
redis = { version = "=1.8.0", default-features = false }
serde = { version = "=1.0.229", features = ["derive"] }
shiplift = "=0.7.0"
systemd = "=0.10.1"
tokio = { version = "=1.54.1", features = ["rt", "net", "time"] }
url = "=2.5.8"
