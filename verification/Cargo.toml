[package]
name = "keyword_finder"
version = "0.1.0"
edition = "2021"
publish = false

[dependencies]
regex = "*"
rocksdb = "*"
reqwest = { version = "*", default-features = false, features = ["blocking"] }
clap = { version = "*", features = ["derive"] }
indicatif = "*"
threadpool = "*"
libc = "*"
