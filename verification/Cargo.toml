[package]
name = "poseidonos_rtype"
version = "0.1.0"
edition = "2021"
publish = false

[dependencies]
bitvec = "1"
bit-vec = "0.6"
byteorder = "1"
uuid = { version = "1", features = ["v4"] }
serde = { version = "1", features = ["derive"] }
toml = "0.5"
log = "0.4"
env_logger = "0.9"
rand = "0.8"
lazy_static = "1"
crossbeam = "0.8"
bincode = "1"
atomic_enum = "0.2"
static_assertions = "1"
