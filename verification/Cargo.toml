[package]
name = "kudu"
version = "0.1.0"
edition = "2021"
publish = false

[dependencies]
rand = "0.9"
regex = "1"
anyhow = "1"
chrono = "0.4"
clap = { version = "4", features = ["cargo"] }
crossterm = "*"
ratatui = "*"
tui-input = "*"
serde = { version = "1", features = ["derive"] }
serde_json = "1"
uuid = { version = "1", features = ["v4", "serde"] }
qapi = { version = "*", features = ["qmp"] }
which = "*"
libc = "0.2"
rustix = { version = "*", features = ["fs"] }
kvm-ioctls = "*"
reqwest = { version = "*", default-features = false, features = ["blocking"] }
