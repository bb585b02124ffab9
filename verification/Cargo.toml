[package]
name = "sv2_proxy_core"
version = "0.1.0"
edition = "2021"
publish = false

[dependencies]
snow = "=0.9.6"
ed25519-dalek = "=1.0.1"
rand = "=0.7.3"
bytes = "=1.12.1"
const_sv2 = "=0.1.3"
binary_sv2 = "=7.0.0"
mining_sv2 = "=12.0.0"
codec_sv2 = "=7.0.0"
common_messages_sv2 = "*"
async-channel = "=1.9.0"
async-std = "=1.13.2"
