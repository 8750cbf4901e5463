[package]
name = "deno_desktop"
version = "0.1.0"
edition = "2021"
publish = false

[dependencies]
sha2 = "=0.10.9"
faster-hex = "=0.10.1"
deno_path_util = "=0.6.4"
deno_config = "=0.110.0"
deno_terminal = "=0.2.3"
anyhow = "1"
log = "0.4"
tempfile = "3"
tokio = { version = "1", features = ["process"] }
