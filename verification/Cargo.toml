[package]
name = "qemu-display"
version = "0.1.0"
edition = "2021"
publish = false

[dependencies]
image = { version = "0.23", default-features = false }
zbus = "2"
vnc = "0.4"
clap = { version = "3", features = ["derive"] }
libc = "0.2"
serde = { version = "1", features = ["derive"] }
serde_repr = "0.1"
serde_bytes = "0.11"
async-trait = "0.1"
log = "0.4"
derivative = "2"
futures-util = "0.3"
futures = "0.3"
