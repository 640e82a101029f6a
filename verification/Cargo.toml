[package]
name = "dns_filter"
version = "0.1.0"
edition = "2021"
publish = false

[dependencies]
async-trait = "0.1"
base64 = "=0.22.1"
caps = "0.5"
clap = { version = "4", features = ["derive"] }
hickory-net = { version = "=0.26.3", features = ["dnssec-ring", "https-ring", "quic-ring", "tls-ring", "webpki-roots"] }
hickory-proto = "=0.26.3"
hickory-resolver = { version = "=0.26.3", features = ["dnssec-ring", "recursor"] }
hickory-server = { version = "0.26", features = ["https-ring", "quic-ring", "tls-ring"] }
http = "=1.5.0"
ipnet = "2"
nix = { version = "=0.31.3", features = ["fs", "hostname", "net", "signal", "user"] }
prometheus = "=0.14.0"
quinn = { version = "0.11", default-features = false, features = ["runtime-tokio", "rustls-ring"] }
rcgen = "=0.14.10"
rustls = { version = "=0.23.46", default-features = false, features = ["ring", "std", "tls12", "logging"] }
rustls-pemfile = "=2.2.0"
serde = { version = "1", features = ["derive"] }
serde_json = "1"
serde_path_to_error = "0.1"
serde_yaml = "=0.9.34"
socket2 = { version = "0.5", features = ["all"] }
syslog = "*"
tokio = { version = "1", features = ["full"] }
tokio-rustls = { version = "0.26", default-features = false, features = ["ring", "tls12", "logging"] }
tokio-util = "0.7"
tracing = "0.1"
tracing-appender = "0.2"
tracing-subscriber = { version = "0.3", features = ["env-filter", "json"] }
url = "=2.5.8"

[dev-dependencies]
sqlx = { version = "0.8", default-features = false, features = ["runtime-tokio", "sqlite"] }
