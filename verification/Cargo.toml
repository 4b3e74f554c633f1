[package]
name = "constella"
version = "0.1.0"
edition = "2021"
publish = false

[dependencies]
blake3 = { version = "1", features = ["pure"] }
chrono = "0.4"
crossbeam-channel = "0.5"
env_logger = "0.10"
ignore = "0.4"
log = "0.4"
memmap2 = "0.9"
mime_guess = "2"
notify = "6"
num_cpus = "1"
parking_lot = "0.12"
serde = { version = "1", features = ["derive"] }
serde_json = "1"
similar = "2"
sysinfo = "0.29"
tantivy = "0.21"
tokio = { version = "1", features = ["full"] }
walkdir = "2"
# tantivy 0.21 reaches zstd-safe 6, which compiles against zstd-sys up to 2.0.9 only.
zstd-sys = ">=2.0.7,<2.0.10"
