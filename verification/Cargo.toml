[package]
name = "dear_mirl_gui"
version = "0.1.0"
edition = "2021"
publish = false

[dependencies]
mirl = "=8.0.0"
fontdue = "=0.9.5"
indexmap = "=2.14.2"
