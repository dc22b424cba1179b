[package]
name = "pixi-pfx"
version = "0.1.0"
edition = "2021"
publish = false

[dependencies]
clap = { version = "4", features = ["derive", "env"] }
cynic = "3"
rattler_networking = { version = "*", default-features = false }
reqwest = { version = "0.12", default-features = false, features = ["json", "rustls-tls"] }
serde = { version = "1", features = ["derive"] }
serde_json = "1"
tabwriter = "1"
tokio = { version = "1", features = ["macros", "rt-multi-thread"] }
