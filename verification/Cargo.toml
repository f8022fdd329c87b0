[package]
name = "waddle"
version = "0.1.0"
edition = "2021"
publish = false

[dependencies]
bitfield = "=0.13.2"
miette = "=5.10.0"
slotmap = "=1.1.1"
thiserror = "=1.0.69"
