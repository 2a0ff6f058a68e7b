[package]
name = "fib_core"
version = "0.1.0"
edition = "2021"
publish = false

[dependencies]
clap = { version = "4", features = ["derive"] }
plotly = "0.8"
pprof = { version = "0.13", features = ["flamegraph"] }
serde = { version = "1", features = ["derive"] }
serde_json = "1"
