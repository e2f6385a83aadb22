[package]
name = "gitstafette_discovery"
version = "0.1.0"
edition = "2021"
publish = false

[dependencies]
tokio = { version = "1", features = ["macros", "rt-multi-thread", "time"] }
tonic = "0.9"
tonic-health = "0.9"
prost = "0.11"
http = "0.2"
clap = { version = "4", features = ["derive"] }
