[package]
name = "project_untitled"
version = "0.1.0"
edition = "2021"
publish = false

[dependencies]
rig-core = "=0.31.0"
serde = { version = "=1.0.229", features = ["derive"] }
serde_json = "=1.0.154"
thiserror = "=2.0.21"
tokio = { version = "=1.54.1", features = ["macros", "rt-multi-thread", "sync"] }
