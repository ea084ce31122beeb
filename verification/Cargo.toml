[package]
name = "cabledesk"
version = "0.1.0"
edition = "2021"
publish = false

[dependencies]
serde = { version = "1", features = ["derive"] }
serde_json = "1"
thiserror = "*"
zbus = "*"
tokio = { version = "1", features = ["full"] }
futures-util = "*"
nix = { version = "*", features = ["net"] }
rtnetlink = "*"
async-trait = "*"
clap = { version = "4", features = ["derive"] }
tracing = "*"
tracing-subscriber = { version = "*", features = ["env-filter", "fmt"] }
tracing-journald = "*"
async-channel = "*"
gtk4 = "*"
libadwaita = "*"
