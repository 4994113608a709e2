[package]
name = "roblox_rs"
version = "0.1.0"
edition = "2021"
publish = false

[dependencies]
syn = { version = "=2.0.119", features = ["full", "extra-traits", "visit"] }
quote = "=1.0.47"
clap = { version = "=4.6.7", features = ["derive"] }
structopt = "=0.3.26"
serde = { version = "=1.0.229", features = ["derive"] }
serde_json = "=1.0.154"
toml = "=0.8.23"
tempfile = "=3.27.0"
thiserror = "=1.0.69"
chrono = "=0.4.45"
tokio = { version = "=1.54.1", features = ["sync", "rt", "rt-multi-thread", "macros"] }
async-trait = "=0.1.92"
mlua = { version = "=0.9.9", features = ["luau", "vendored"] }
wasm-bindgen = "=0.2.130"
js-sys = "=0.3.107"
