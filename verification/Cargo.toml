[package]
name = "nio"
version = "0.1.0"
edition = "2021"
publish = false

[dependencies]
mio = { version = "=1.2.4", features = ["os-poll", "net"] }
crossbeam-queue = "=0.3.14"
nio-task = "=0.2.0"
nio-threadpool = "=0.1.0"
ratatui = "*"
crossterm = { version = "*", features = ["event-stream"] }
futures-core = "*"
