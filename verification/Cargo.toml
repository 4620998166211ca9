[package]
name = "rp1"
version = "0.1.0"
edition = "2021"
publish = false

[dependencies]
Inflector = "0.11"
time = { version = "0.3", features = ["parsing", "formatting", "macros"] }
serde = { version = "1", features = ["derive"] }
serde_json = "1"
validator = { version = "0.14", features = ["derive"] }
diesel = { version = "1.4", features = ["postgres"] }
rocket = { version = "0.5", features = ["json"] }
syn = { version = "1", features = ["full", "extra-traits"] }
quote = "1"
proc-macro2 = "1"
darling = "0.13"
thiserror = "1"
either = "1"
