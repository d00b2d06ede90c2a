[package]
name = "guild_sc"
version = "0.1.0"
edition = "2021"
publish = false

[dependencies]
multiversx-sc = "*"
multiversx-sc-scenario = "*"
multiversx-sc-modules = "*"
