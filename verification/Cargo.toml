[package]
name = "helix_db"
version = "0.1.0"
edition = "2021"
publish = false

[dependencies]
bytes = "=1.12.1"
foyer = "=0.22.6"
futures = "=0.3.34"
roaring = "=0.12.0"
serde = { version = "=1.0.229", features = ["derive"] }
serde_json = { version = "=1.0.154", features = ["preserve_order"] }
sha2 = "0.10"
slatedb = "=0.18.0"
sonic-rs = "=0.5.10"
thiserror = "=2.0.21"
tokio = { version = "=1.54.1", features = ["sync", "rt", "macros", "time"] }
tracing = "=0.1.44"
uuid = "=1.29.0"
