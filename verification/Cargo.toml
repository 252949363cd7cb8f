[package]
name = "noveler"
version = "0.1.0"
edition = "2021"
publish = false

[dependencies]
aho-corasick = "=1.1.5"
async-trait = "=0.1.92"
clap = { version = "=4.6.7", features = ["derive"] }
encoding_rs = "=0.8.42"
regex = "=1.13.1"
reqwest = "=0.13.5"
thiserror = "=1.0.69"
tokio = { version = "=1.54.1", features = ["full"] }
url = "=2.5.8"
visdom = { version = "=1.0.4", features = ["destroy"] }
