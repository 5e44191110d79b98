[package]
name = "cdk_scaffold"
version = "0.1.0"
edition = "2021"
publish = false

[dependencies]
clap = { version = "*", features = ["derive"] }
include_assets = "*"
reqwest = { version = "*", default-features = false }
spinoff = "*"
tokio = { version = "*", features = ["macros", "rt-multi-thread"] }
