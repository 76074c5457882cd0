[package]
name = "pow"
version = "0.1.0"
edition = "2021"
publish = false

[dependencies]
rand = "0.8"
tokio = { version = "1", default-features = false, features = ["rt-multi-thread", "net", "macros", "io-util"] }
structopt = "0.3"
