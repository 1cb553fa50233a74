[package]
name = "gas_engine"
version = "0.1.0"
edition = "2021"
publish = false

[dependencies]
ahash = "=0.8.12"
anyhow = "=1.0.104"
blake2b_simd = "=1.0.5"
cid = "=0.11.3"
futures = "=0.3.34"
fvm_ipld_blockstore = "=0.3.2"
fvm_shared = "=2.12.2"
hex = "=0.4.3"
jsonrpc-v2 = { version = "=0.13.0", default-features = false, features = ["easy-errors", "hyper-integration"] }
log = "=0.4.34"
num-bigint = "=0.4.8"
num-traits = "=0.2.19"
pbr = "=1.1.1"
rand = "=0.8.8"
rand_distr = "=0.4.3"
reqwest = { version = "=0.11.27", default-features = false, features = ["stream"] }
serde = { version = "=1.0.229", features = ["derive"] }
sha2 = "=0.10.9"
tokio = { version = "=1.54.1", features = ["fs", "io-util", "rt", "sync"] }
tracing = "=0.1.44"
