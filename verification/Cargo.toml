[package]
name = "account_constraints"
version = "0.1.0"
edition = "2021"
publish = false

[dependencies]
bincode = "1.3"
heck = "0.3"
proc-macro2 = "1.0"
proc-macro2-diagnostics = "0.9"
quote = "1.0"
solana-program = "~1.9.13"
syn = { version = "1.0", features = ["full", "extra-traits"] }
