[package]
name = "quickosdl"
version = "0.1.0"
edition = "2021"
publish = false

[dependencies]
itertools = "0.13"
md-5 = "0.10"
ratatui = "0.29"
reqwest = "0.12"
sha1 = "0.10"
sha2 = "0.10"
size = "0.4"
thiserror = "1"
tokio = { version = "1", features = ["rt-multi-thread"] }
