[package]
name = "via_protocol_keychron"
version = "0.1.0"
edition = "2021"
publish = false

[dependencies]
via-protocol = "*"
hidapi = "*"
palette = "*"
bitflags = "2"
serde = { version = "1", features = ["derive"] }
tracing = "0.1"
