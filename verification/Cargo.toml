[package]
name = "hvac_limpet"
version = "0.1.0"
edition = "2021"
publish = false

[dependencies]
embassy-executor = "=0.10.0"
embassy-futures = "=0.1.2"
embassy-net = { version = "=0.7.1", features = ["proto-ipv4", "medium-ethernet", "tcp", "dns", "dhcpv4"] }
embassy-sync = "=0.8.0"
embassy-time = "=0.5.1"
heapless = "=0.9.3"
rand_core = "=0.10.1"
reqwless = "=0.13.0"
serde = { version = "=1.0.229", features = ["derive"] }
serde-json-core = "=0.6.0"
static_cell = "=2.1.1"
