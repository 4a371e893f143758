[package]
name = "logroute"
version = "0.1.0"
edition = "2021"
publish = false

[dependencies]
ansi_term = "=0.12.1"
chrono = { version = "=0.4.45", default-features = false, features = ["std", "clock"] }
crossbeam = "=0.8.5"
futures = "=0.1.31"
futures-cpupool = "=0.1.8"
log = { version = "=0.4.34", features = ["std"] }
mio = "=0.6.23"
time = "=0.1.45"

[dev-dependencies]
regex = "1"
