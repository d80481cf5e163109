[package]
name = "ralertsinua"
version = "0.1.0"
edition = "2021"
publish = false

[dependencies]
arrayvec = "*"
wkt = "*"
geo = "*"
ratatui = "*"
crossterm = "*"
tokio = { version = "*", features = ["rt-multi-thread", "sync", "time", "macros"] }
reqwest = { version = "*", default-features = false, features = ["json"] }
serde = { version = "*", features = ["derive"] }
serde_json = "*"
