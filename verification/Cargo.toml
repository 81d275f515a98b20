[package]
name = "actor_mailbox"
version = "0.1.0"
edition = "2021"
publish = false

[dependencies]
futures-channel = "0.3"
futures-util = "0.3"
tokio = { version = "1", features = ["rt", "rt-multi-thread"] }
thiserror = "1"
