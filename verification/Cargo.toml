[package]
name = "isobrowse"
version = "0.1.0"
edition = "2021"
publish = false

[dependencies]
serde_json = "1"
rhai = "1"
reqwest = { version = "0.12", default-features = false, features = ["blocking", "cookies", "rustls-tls"] }
sysinfo = { version = "0.30", default-features = false }
wasmtime = { version = "25", default-features = false, features = ["cranelift", "runtime", "std"] }
wasmtime-wasi = { version = "25", default-features = false, features = ["preview1"] }
