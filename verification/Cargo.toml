[package]
name = "iceoryx2_node"
version = "0.1.0"
edition = "2021"
publish = false

[dependencies]
iceoryx2-bb-container = "0.4"
iceoryx2-bb-elementary = "0.4"
iceoryx2-bb-lock-free = "0.4"
iceoryx2-bb-log = "0.4"
iceoryx2-bb-posix = "0.4"
iceoryx2-bb-system-types = "0.4"
iceoryx2-cal = "0.4"
serde = { version = "1", features = ["derive"] }
