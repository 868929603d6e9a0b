[package]
name = "tlstuc"
version = "0.1.0"
edition = "2021"
publish = false

[dependencies]
anyhow = "=1.0.104"
clap = { version = "=4.6.7", features = ["derive"] }
env_logger = "=0.11.11"
inkwell = { version = "=0.2.0", features = ["llvm14-0"] }
llvm-sys = { version = "=140.1.3", features = ["force-dynamic"] }
log = "=0.4.34"
self_update = "=1.3.0"
serde = { version = "=1.0.229", features = ["derive"] }
tempfile = "=3.27.0"
toml = "=1.1.6"
which = "=8.0.6"
