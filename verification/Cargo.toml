[package]
name = "ic_http_proxy"
version = "0.1.0"
edition = "2021"
publish = false

[dependencies]
candid = "=0.10.39"
ic-cdk = "=0.12.3"
ic-cdk-macros = "=0.8.4"
ic-cdk-timers = "=0.6.1"
ic-websocket-cdk = "=0.3.4"
url = "=2.5.8"
utc-dt = "=0.2.1"
serde = { version = "=1.0.229", features = ["derive"] }
serde_cbor = "=0.11.2"
lazy_static = "=1.5.1"
pocket-ic = "=3.1.0"
ic-agent = "=0.30.2"
ring = "=0.16.20"

[dev-dependencies]
slotmap = "=1.1.1"
