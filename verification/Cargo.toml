[package]
name = "fresh-editor"
version = "0.1.0"
edition = "2021"
publish = false

[dependencies]
ratatui = { version = "0.30", default-features = false }
serde = { version = "1", features = ["derive"] }
serde_json = "1"
tokio = { version = "1", default-features = false, features = ["rt", "sync"] }
unicode-width = "0.2"
