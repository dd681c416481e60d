[package]
name = "mediator_sys"
version = "2.0.1"
edition = "2021"
publish = false

[dependencies]
async-std = "1"
async-trait = "0.1"
