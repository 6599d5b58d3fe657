[package]
name = "cameleon"
version = "0.1.0"
edition = "2021"
publish = false

[dependencies]
semver = "1"
sha1 = "0.10"
zip = { version = "2", default-features = false, features = ["deflate"] }
