[package]
name = "serein"
version = "0.1.0"
edition = "2021"
publish = false

[dependencies]
async-trait = "0.1"
darling = "0.20"
proc-macro2 = "1"
quote = "1"
serenity = "0.12"
syn = "2"
thiserror = "1"
