[package]
name = "redstone_sequencer"
version = "0.1.0"
edition = "2021"
publish = false

[dependencies]
alloy-eips = "*"
alloy-primitives = "*"
alloy-rlp = "*"
alloy-rpc-types-engine = "*"
alloy-serde = "*"
async-trait = "*"
dotenv = "*"
http = "*"
revm = { version = "*", default-features = false, features = ["std"] }
serde = { version = "*", features = ["derive"] }
serde_json = "*"
sha2 = "*"
structopt = "*"
tokio = { version = "*", features = ["rt-multi-thread", "macros", "sync", "time"] }
tracing = "*"
