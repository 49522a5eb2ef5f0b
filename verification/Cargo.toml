[package]
name = "coman"
version = "0.1.0"
edition = "2021"
publish = false

[dependencies]
alphanumeric-sort = "1"
anyhow = "1"
getargs = "0.5"
if_chain = "1"
serde = { version = "1", features = ["derive"] }
thiserror = "1"
toml = "0.8"
walkdir = "2"
xz2 = "0.1"
