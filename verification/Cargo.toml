[package]
name = "recisdb"
version = "0.1.0"
edition = "2021"
publish = false

[dependencies]
clap = { version = "4", features = ["derive"] }
clap-num = "1"
ctrlc = "3"
futures-executor = "0.3"
futures-time = "3"
futures-util = { version = "0.3", features = ["io"] }
indicatif = "0.17"
log = "0.4"
pin-project-lite = "0.2"
