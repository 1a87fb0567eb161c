[package]
name = "runtime_v2"
version = "0.1.0"
edition = "2021"
publish = false

[dependencies]
anyhow = "=1.0.104"
chrono = "=0.4.45"
clap = { version = "=4.6.7", features = ["derive"] }
lazy_static = "=1.5.1"
reqwest = { version = "=0.12.28", default-features = false, features = ["json"] }
serde = { version = "=1.0.229", features = ["derive"] }
serde_json = "=1.0.154"
tide = { version = "=0.16.0", default-features = false, features = ["h1-server"] }
tokio = { version = "=1.54.1", features = ["full"] }
toml = "=1.1.8"
tracing = "=0.1.44"
wasmtime = { version = "=36.0.19", default-features = false, features = ["runtime", "cranelift", "component-model", "std", "wat"] }
