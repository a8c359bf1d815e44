[package]
name = "url_validator"
version = "0.1.0"
edition = "2021"
publish = false

[dependencies]
url = "*"
csv = "*"
reqwest = { version = "*", default-features = false }
structopt = "*"
tokio = { version = "*", default-features = false, features = ["rt-multi-thread", "macros", "sync"] }
tqdm = "*"
