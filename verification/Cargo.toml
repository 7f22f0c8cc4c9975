[package]
name = "candle_auction"
version = "0.1.0"
edition = "2021"
publish = false

[dependencies]
ink_env = "=3.0.0-rc6"
ink_storage = "=3.0.0-rc6"
# Named by ink_env and ink_storage in their signatures: held to their release.
ink_primitives = "=3.0.0-rc6"
parity-scale-codec = "=2.3.1"
