[package]
name = "bubo"
version = "0.1.0"
edition = "2021"
publish = false

[dependencies]
crossbeam = "0.8"
once_cell = "1"
sha2 = "0.10"
time = { version = "0.3", features = ["formatting", "parsing"] }
dotenvy = "0.15"
