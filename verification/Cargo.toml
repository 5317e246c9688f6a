[package]
name = "tree_service"
version = "0.1.0"
edition = "2021"
publish = false

[dependencies]
anyhow = "1"
async-trait = "0.1"
bytes = "1"
fn-error-context = "0.2"
fs-err = "3"
futures = "0.3"
nonzero_ext = "0.3"
parking_lot = "0.12"
regex = "1"
sapling-configmodel = "0.1"
serde = { version = "1", features = ["derive"] }
tracing = "0.1"
