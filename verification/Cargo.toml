[package]
name = "atx"
version = "0.1.0"
edition = "2021"
publish = false

[dependencies]
clap = { version = "4", features = ["derive"] }
clap_complete = "4"
clap_mangen = "*"
getrandom = "*"
jiff = "0.2"
jiff-tzdb = "*"
libc = "0.2"
rusqlite = { version = "*", features = ["bundled"] }
rustix = { version = "1", features = ["fs", "process", "time"] }
serde = { version = "1", features = ["derive"] }
serde_json = "1"
thiserror = "2"
toml = "*"
uuid = { version = "1", features = ["v7"] }
