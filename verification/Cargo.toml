[package]
name = "rain_forker"
version = "0.1.0"
edition = "2021"
publish = false

[dependencies]
alloy = { version = "=1.8.3", default-features = false, features = ["std", "consensus", "eips", "network", "providers", "provider-http", "sol-types"] }
foundry-fork-db = { version = "=0.22.0", default-features = false }
revm = { version = "=34.0.0", default-features = false, features = ["std", "optional_block_gas_limit", "optional_eip3607", "optional_no_base_fee"] }
revm-inspectors = { version = "=0.34.4", default-features = false, features = ["std"] }
url = "2"
alloy-primitives = { version = "=1.5.2", default-features = false }
idna_adapter = "=1.1.0"
alloy-sol-macro = { version = "=1.5.2", default-features = false }
alloy-sol-macro-expander = { version = "=1.5.2", default-features = false }
alloy-sol-macro-input = { version = "=1.5.2", default-features = false }
alloy-sol-type-parser = { version = "=1.5.2", default-features = false }
syn-solidity = { version = "=1.5.2", default-features = false }
bitcoin-io = { version = "=0.1.3", default-features = false }
bitcoin_hashes = { version = "=0.14.0", default-features = false }
derive_more = { version = "=2.0.1", default-features = false }
parity-scale-codec = { version = "=3.6.12", default-features = false }
pest = { version = "=2.8.0", default-features = false }
ruint = { version = "=1.17.0", default-features = false }
serde_with = { version = "=3.12.0", default-features = false }
time = { version = "=0.3.41", default-features = false }
