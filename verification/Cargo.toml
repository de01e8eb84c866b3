[package]
name = "ruku"
version = "0.1.0"
edition = "2021"
publish = false

[dependencies]
bollard = "*"
clap = { version = "*", features = ["derive"] }
cmd_lib = "*"
colored = "*"
home = "*"
nixpacks = "*"
port-selector = "*"
serde = { version = "*", features = ["derive"] }
serde_yaml = "*"
tokio = { version = "*", features = ["macros", "rt-multi-thread"] }
