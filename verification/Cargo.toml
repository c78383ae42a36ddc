[package]
name = "fbksd-core"
version = "0.1.0"
edition = "2021"
publish = false

[dependencies]
chrono = "=0.4.45"
uuid = { version = "=1.29.0", features = ["v4"] }
regex = "=1.13.1"
serde = { version = "=1.0.229", features = ["derive"] }
serde_json = "=1.0.154"
serde_yaml = "=0.8.26"
glob = "=0.3.4"
fs2 = "=0.4.3"
log = "=0.4.34"
lazy_static = "=1.5.1"
diesel = { version = "=1.4.8", features = ["sqlite", "chrono"] }
clap = "=2.34.0"
log4rs = "=0.10.0"
lettre = "=0.9.6"
lettre_email = "=0.9.4"
actix-web = { version = "4", default-features = false, features = ["openssl"] }
actix-rt = "2"
bytes = "1"
futures = "0.3"
openssl = "0.10"
env_logger = "*"
