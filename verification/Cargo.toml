[package]
name = "ssb_feed_validator"
version = "0.1.0"
edition = "2021"
publish = false

[dependencies]
node-bindgen = "=6.1.0"
ssb-crypto = "=0.2.3"
ssb-legacy-msg-data = "=0.1.4"
ssb-validate = "=1.4.2"
ssb-verify-signatures = "=1.1.1"
