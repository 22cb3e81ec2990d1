[package]
name = "fuzzcore"
version = "0.1.0"
edition = "2021"
publish = false

[dependencies]
libafl_bolts = "0.13"
hashbrown = "0.14"
serde_json = "1"
