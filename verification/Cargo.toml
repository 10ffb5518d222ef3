[package]
name = "quizzard"
version = "0.1.0"
edition = "2021"
publish = false

[dependencies]
console = "0.15"
email_address = { version = "=0.2.4", default-features = false }
num-traits = "0.2"
proc-macro2 = "1"
quote = "1"
syn = "2"
thiserror = "1"
