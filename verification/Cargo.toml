[package]
name = "mcp795xx"
version = "0.1.0"
edition = "2021"

[dependencies]
chrono = { version = "0.4", default-features = false }
embedded-hal = "0.2"

[dev-dependencies]
bitfield = "0.13"
