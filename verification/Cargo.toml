[package]
name = "multiemu_definition"
version = "0.1.0"
edition = "2021"
publish = false

[dependencies]
arrayvec = "=0.7.8"
rand = "=0.9.5"
rangemap = "=1.8.0"
bitvec = "=1.1.1"
serde = { version = "=1.0.229", features = ["derive"] }
bincode = { version = "=2.0.1", features = ["serde"] }
rmp-serde = "=1.3.1"
bytemuck = "=1.25.2"
tracing = "=0.1.44"
bytes = "1"
memmap2 = "0.9"
