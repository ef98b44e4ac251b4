[package]
name = "pattern_clock"
version = "0.1.0"
edition = "2021"
publish = false

[dependencies]
tokio = { version = "=1.54.1", features = ["rt", "rt-multi-thread", "macros", "sync", "time"] }
ractor = "=0.16.5"
pulldown-cmark = "=0.13.5"
serde = { version = "=1.0.229", features = ["derive"] }
serde_json = "=1.0.154"
reqwest = { version = "=0.12.28", default-features = false, features = ["json"] }
anyhow = "=1.0.104"
rmcp = { version = "=3.7.0", features = ["server"] }
dioxus = { version = "=0.7.10", default-features = false, features = ["macro", "html", "signals", "hooks", "launch"] }
burn = { version = "=0.19.1", default-features = false, features = ["autodiff", "ndarray"] }
