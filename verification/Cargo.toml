[package]
name = "deadpool_ldap"
version = "0.1.0"
edition = "2021"
publish = false

[dependencies]
ldap3 = { version = "*", default-features = false }
deadpool = "*"
tokio = { version = "*", features = ["rt", "sync"] }
async-trait = "*"
