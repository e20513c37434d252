[package]
name = "sp_mvm"
version = "0.1.0"
edition = "2021"
publish = false

[dependencies]
log = "=0.4.35"
once_cell = "=1.21.4"
move-core-types = "=0.0.3"
