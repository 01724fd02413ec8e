[package]
name = "aurcat"
version = "0.1.0"
edition = "2021"
publish = false

[dependencies]
clap = { version = "*", features = ["derive"] }
colored = "*"
convert_case = "*"
dirs = "*"
indicatif = "*"
inquire = "*"
reqwest = { version = "*", default-features = false, features = ["json", "rustls-tls"] }
serde = { version = "*", features = ["derive"] }
serde_json = "*"
sniffer-rs = "*"
strip-ansi-escapes = "*"
term_size = "*"
tokio = { version = "*", features = ["macros", "rt-multi-thread"] }
toml = "*"
