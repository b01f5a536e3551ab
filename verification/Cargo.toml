[package]
name = "shelfsync"
version = "0.1.0"
edition = "2021"
publish = false

[dependencies]
uuid = { version = "*", features = ["v4"] }
rand = "*"
axum = "*"
tokio = { version = "*", features = ["full"] }
tokio-util = { version = "*", features = ["io"] }
tower-http = { version = "*", features = ["cors"] }
reqwest = { version = "*", default-features = false, features = ["stream"] }
futures-util = "*"
rusqlite = { version = "*", features = ["bundled"] }
image = { version = "*", default-features = false, features = ["jpeg"] }
serde = { version = "*", features = ["derive"] }
serde_json = "*"
mdns-sd = "*"
hostname = "*"
local-ip-address = "*"
