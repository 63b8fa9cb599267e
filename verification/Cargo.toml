[package]
name = "garlemald-client"
version = "0.1.0"
edition = "2021"
publish = false

[dependencies]
anyhow = "1"
crc32fast = "1"
directories = "5"
egui = { version = "0.28", default-features = false, features = ["default_fonts"] }
env_logger = { version = "0.11", default-features = false }
libc = "0.2"
librqbit = { version = "8", default-features = false, features = ["rust-tls"] }
log = "0.4"
parking_lot = "0.12"
serde = { version = "1", features = ["derive"] }
tempfile = "3"
thiserror = "1"
tokio = { version = "1", features = ["rt-multi-thread", "time"] }
toml = "0.8"
ureq = { version = "2", features = ["json"] }
zip = { version = "2", default-features = false, features = ["deflate"] }
