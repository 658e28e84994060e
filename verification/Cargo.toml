[package]
name = "swan_updown"
version = "0.1.0"
edition = "2021"
publish = false

[dependencies]
hex = "*"
clap = { version = "*", features = ["derive"] }
env_logger = "*"
eyre = "*"
futures = "*"
log = "*"
netlink-packet-route = "*"
nix = { version = "*", features = ["sched"] }
rtnetlink = "*"
syslog = "*"
tokio = { version = "*", features = ["rt", "rt-multi-thread", "net", "time", "sync", "macros", "io-util"] }
