[package]
name = "curseforge_pack_downloader"
version = "1.2.0"
edition = "2021"
publish = false

[dependencies]
bytes = "=1.12.1"
clap = "=2.34.0"
futures-util = "=0.3.34"
indicatif = "0.17"
reqwest = { version = "=0.11.27", features = ["blocking", "json", "stream"] }
serde = { version = "=1.0.229", features = ["derive"] }
serde_json = "=1.0.154"
tokio = { version = "=1.54.1", features = ["macros", "rt-multi-thread"] }
