[package]
name = "kraken"
version = "0.1.0"
edition = "2021"
publish = false

[dependencies]
chrono = "0.4"
clap = "2"
daemonize = "0.3"
dirs = "1"
futures = "0.1"
haikunator = "0.1"
hostname = "0.1"
hyper = "0.12"
hyper-tls = "0.3"
prettytable-rs = "0.8"
serde = "1"
serde_derive = "1"
serde_json = "1"
subprocess = "0.1"
