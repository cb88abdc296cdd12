[package]
name = "startup_sequencer"
version = "0.1.0"
edition = "2021"
publish = false

[dependencies]
anyhow = "1"
esp-idf-hal = "*"
esp-idf-svc = "*"
esp-idf-sys = "*"
heapless = "0.8"
log = "0.4"
reqwest = { version = "0.12", default-features = false }
time = { version = "0.3", features = ["formatting", "macros"] }
tokio = { version = "1", features = ["rt", "net", "io-util", "time"] }
