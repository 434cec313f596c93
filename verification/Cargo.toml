[package]
name = "scarb_eject"
version = "0.1.0"
edition = "2021"
publish = false

[dependencies]
anyhow = "1"
cairo-lang-filesystem = "~2.11.0"
cairo-lang-project = "~2.11.0"
cairo-lang-utils = "~2.11.0"
clap = { version = "4", features = ["derive"] }
scarb-metadata = "1"
scarb-ui = "0.1"
serde_json = "1"
toml = "0.8"
tracing = "0.1"
