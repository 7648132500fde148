[package]
name = "harmion_connect"
version = "0.1.0"
edition = "2021"
publish = false

[dependencies]
bs58 = "0.5"
dashmap = "6"
ed25519-dalek = { version = "2", features = ["rand_core", "serde"] }
futures-util = { version = "0.3", features = ["sink"] }
moka = { version = "0.12", features = ["future"] }
rand = "0.8"
reqwest = { version = "0.12", default-features = false }
rmp-serde = "1"
serde = { version = "1", features = ["derive"] }
sha2 = "0.10"
thiserror = "2"
tokio = { version = "1", features = ["macros", "net", "rt-multi-thread", "sync", "time"] }
tokio-tungstenite = "0.27"
tokio-util = "0.7"
tracing = "0.1"
warp = { version = "0.4", features = ["server", "websocket"] }
webrtc = "0.13"
