[package]
name = "morpheus"
version = "0.1.0"
edition = "2021"
publish = false

[dependencies]
async-task = "*"
crossbeam = "*"
futures-lite = "*"
libc = "*"
memmap2 = "*"
parking_lot = "*"
thiserror = "*"
tokio = { version = "*", default-features = false, features = ["rt", "time"] }
tracing = "*"
