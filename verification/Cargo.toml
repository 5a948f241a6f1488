[package]
name = "tokio-browser"
version = "0.1.0"
edition = "2021"
publish = false

[dependencies]
console_error_panic_hook = "=0.1.7"
futures = "=0.3.34"
tokio = { version = "=1.54.1", features = ["rt", "rt-multi-thread", "macros", "time", "sync"] }
tokio-fs-ext = { version = "=0.7.8", features = ["opfs_offload", "opfs_watch"] }
tracing = "=0.1.44"
tracing-subscriber = { version = "=0.3.23", features = ["env-filter", "fmt"] }
tracing-web = "=0.1.4"
wasm-bindgen = "=0.2.130"
