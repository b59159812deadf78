[package]
name = "mcp2517fd"
version = "0.1.0"
edition = "2021"
publish = false

[dependencies]
embedded-hal = { version = "=0.2.7", features = ["unproven"] }
num_enum = "=0.5.11"

[dev-dependencies]
bitfield = "=0.13.2"
