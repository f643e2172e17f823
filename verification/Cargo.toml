[package]
name = "rbw_agent"
version = "0.1.0"
edition = "2021"
publish = false

[dependencies]
anyhow = "1"
log = "0.4"
rand = "0.8"
reqwest = { version = "0.12", default-features = false }
rsa = "0.9"
rustix = { version = "1", features = ["termios", "stdio"] }
serde = { version = "1", features = ["derive"] }
serde_json = "1"
sha1 = "0.10"
sha2 = { version = "0.10", features = ["oid"] }
signature = { version = "2", features = ["rand_core", "std"] }
ssh-agent-lib = "0.5"
tempfile = "3"
tokio = { version = "1", features = ["fs", "io-util", "macros", "net", "process", "rt-multi-thread", "sync", "time"] }
uuid = { version = "1", features = ["v4"] }
