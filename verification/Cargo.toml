[package]
name = "cohosting"
version = "0.1.0"
edition = "2021"
publish = false

[dependencies]
axum = "0.6"
ctrlc = "3"
dotenvy = "0.15"
exitcode = "1"
futures-util = "0.3"
hyper = { version = "0.14", features = ["full"] }
log = "0.4"
pin-project = "1"
prost = "0.12"
rustls-pemfile = "1"
tls-listener = { version = "0.8", features = ["rustls", "hyper-h1", "hyper-h2"] }
tokio = { version = "1", features = ["full"] }
tokio-rustls = "0.24"
tonic = "0.10"
tonic-reflection = "0.10"
tracing = "0.1"
tracing-subscriber = { version = "0.3", features = ["env-filter", "json"] }
