[package]
name = "sprinkler"
version = "0.1.0"
edition = "2021"
publish = false

[dependencies]
chrono = "*"
clap = "*"
fern = "*"
futures = "*"
log = "*"
native-tls = "*"
shiplift = "*"
tokio = { version = "*", features = ["full"] }
