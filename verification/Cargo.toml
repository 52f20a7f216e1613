[package]
name = "colback"
version = "0.1.0"
edition = "2021"
publish = false

[dependencies]
polars = { version = "=0.55.2", default-features = false, features = ["dtype-u8", "dtype-u16"] }
syn = { version = "=3.0.9", features = ["full"] }
quote = "=1.0.47"
proc-macro2 = "=1.0.107"
darling = "=0.24.1"
proc-macro-crate = "=3.5.0"
thiserror = "=2.0.21"
