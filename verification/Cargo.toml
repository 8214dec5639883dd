[package]
name = "sketchybarrc"
version = "0.1.0"
edition = "2021"
publish = false

[dependencies]
anyhow = "1"
async-trait = "0.1"
block2 = "*"
btleplug = "*"
chrono = "0.4"
core-foundation = "*"
futures = "0.3"
image = { version = "*", default-features = false, features = ["jpeg"] }
lazy_static = "1"
local-ip-address = "*"
media-remote = "*"
serde = { version = "1", features = ["derive"] }
serde_json = { version = "1", features = ["preserve_order"] }
sysinfo = "*"
tokio = { version = "1", features = ["rt-multi-thread", "macros", "sync", "net", "io-util", "time"] }
ureq = "*"
